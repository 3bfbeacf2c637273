use bbiribarabu::app_state::{branch_check_due, AppState, BRANCH_CHECK_MS};
use bbiribarabu::filter::{contains, to_chars, LogFilter};
use bbiribarabu::git::{parse_output, GitError};
use bbiribarabu::layout::{cursor_cell, inner, overlay, Rect};
use bbiribarabu::log::{branch_file_name, BranchLogFile};
use bbiribarabu::model::{downloaded_model, prepare_model_path_with_status, ModelCheck};
use bbiribarabu::notice::{
    failure_seconds, status_seconds, transcript_entry, voice_failure, VoiceFailure,
    DOWNLOAD_SECONDS, NOTICE_SECONDS,
};
use bbiribarabu::pty_terminal::CursorState;
use bbiribarabu::relay::{chunk, relay_step, ReadOutcome, RelayStep, READ_BUFFER, RETRY_DELAY_MS};

#[test]
fn relay_forwards_stops_and_retries() {
    assert_eq!(relay_step(ReadOutcome::Read(0)), RelayStep::Stop);
    assert_eq!(relay_step(ReadOutcome::Read(1)), RelayStep::Forward(1));
    assert_eq!(relay_step(ReadOutcome::Read(4096)), RelayStep::Forward(4096));
    assert_eq!(relay_step(ReadOutcome::Failed), RelayStep::Retry);
    assert_eq!(READ_BUFFER, 4096);
    assert_eq!(RETRY_DELAY_MS, 5);
}

#[test]
fn chunk_is_the_start_of_the_buffer() {
    let buffer = [1u8, 2, 3, 4, 5];
    assert_eq!(chunk(&buffer, 0), Vec::<u8>::new());
    assert_eq!(chunk(&buffer, 3), vec![1, 2, 3]);
    assert_eq!(chunk(&buffer, 5), vec![1, 2, 3, 4, 5]);
}

#[test]
fn git_output_is_trimmed() {
    assert_eq!(parse_output(true, b"main\n"), Ok("main".to_string()));
    assert_eq!(parse_output(true, b"  feature/x \r\n"), Ok("feature/x".to_string()));
    assert_eq!(parse_output(true, "한글\n".as_bytes()), Ok("한글".to_string()));
}

#[test]
fn git_errors() {
    assert_eq!(parse_output(false, b"main\n"), Err(GitError::Unsuccessful));
    assert_eq!(parse_output(false, &[0xff]), Err(GitError::Unsuccessful));
    assert_eq!(parse_output(true, &[b'a', 0xff]), Err(GitError::NotUtf8));
    assert_eq!(parse_output(true, &[0xc3]), Err(GitError::NotUtf8));
    assert_eq!(parse_output(true, b""), Err(GitError::Empty));
    assert_eq!(parse_output(true, b" \n\t"), Err(GitError::Empty));
}

#[test]
fn branch_file_names() {
    assert_eq!(branch_file_name("main"), "main.json");
    assert_eq!(branch_file_name("feature/x"), "feature__x.json");
    assert_eq!(branch_file_name("a/b/c"), "a__b__c.json");
    assert_eq!(branch_file_name("/"), "__.json");
    assert_eq!(branch_file_name(""), ".json");
    assert_eq!(branch_file_name("한/글"), "한__글.json");
    for b in ["x", "a//b", "release/1.0", "_/_"] {
        assert_eq!(branch_file_name(b), format!("{}.json", b.replace('/', "__")));
    }
}

#[test]
fn branch_is_checked_every_half_second() {
    assert_eq!(BRANCH_CHECK_MS, 500);
    assert!(!branch_check_due(0));
    assert!(!branch_check_due(499));
    assert!(branch_check_due(500));
    assert!(branch_check_due(u128::MAX));
}

#[test]
fn branch_is_taken_over_when_due() {
    let mut state = AppState::init("/repo".to_string(), "main".to_string());
    assert_eq!(state.repo_root, "/repo");
    assert!(!state.refresh_branch_if_needed(100, Some("dev".to_string())));
    assert_eq!(state.current_branch, "main");
    assert!(state.refresh_branch_if_needed(500, None));
    assert_eq!(state.current_branch, "main");
    assert!(state.refresh_branch_if_needed(700, Some("dev".to_string())));
    assert_eq!(state.current_branch, "dev");
    assert!(state.refresh_branch_if_needed(700, Some("dev".to_string())));
    assert_eq!(state.current_branch, "dev");
    assert_eq!(state.repo_root, "/repo");
}

#[test]
fn model_path_is_judged() {
    match prepare_model_path_with_status("m.bin".to_string(), true, true) {
        ModelCheck::Ready(model) => {
            assert_eq!(model.path, "m.bin");
            assert!(!model.downloaded);
        }
        _ => panic!("a file is a model"),
    }
    assert!(matches!(
        prepare_model_path_with_status("m.bin".to_string(), true, false),
        ModelCheck::NotAFile
    ));
    assert!(matches!(
        prepare_model_path_with_status("m.bin".to_string(), false, false),
        ModelCheck::Missing
    ));
    assert!(matches!(
        prepare_model_path_with_status("m.bin".to_string(), false, true),
        ModelCheck::Missing
    ));
    let model = downloaded_model("m.bin".to_string());
    assert_eq!(model.path, "m.bin");
    assert!(model.downloaded);
}

#[test]
fn inner_rect_leaves_the_border() {
    let r = inner(Rect { x: 0, y: 3, width: 48, height: 18 });
    assert_eq!(r, Rect { x: 1, y: 4, width: 46, height: 16 });
    let r = inner(Rect { x: 5, y: 5, width: 1, height: 2 });
    assert_eq!(r, Rect { x: 6, y: 6, width: 0, height: 0 });
    let r = inner(Rect { x: u16::MAX, y: u16::MAX, width: 0, height: 3 });
    assert_eq!(r, Rect { x: u16::MAX, y: u16::MAX, width: 0, height: 1 });
}

#[test]
fn overlay_is_small() {
    let r = overlay(Rect { x: 1, y: 4, width: 46, height: 16 });
    assert_eq!(r, Rect { x: 2, y: 5, width: 32, height: 6 });
    let r = overlay(Rect { x: 1, y: 4, width: 10, height: 3 });
    assert_eq!(r, Rect { x: 2, y: 5, width: 10, height: 3 });
}

#[test]
fn cursor_is_placed_inside_the_panel() {
    let panel = Rect { x: 1, y: 4, width: 46, height: 16 };
    let at = |row, col| CursorState { draw: true, row, col };
    assert_eq!(cursor_cell(panel, at(0, 0)), Some((1, 4)));
    assert_eq!(cursor_cell(panel, at(2, 7)), Some((8, 6)));
    assert_eq!(cursor_cell(panel, at(99, 99)), Some((46, 19)));
    assert_eq!(cursor_cell(panel, CursorState { draw: false, row: 0, col: 0 }), None);
    assert_eq!(cursor_cell(Rect { x: 1, y: 1, width: 0, height: 5 }, at(0, 0)), None);
    assert_eq!(cursor_cell(Rect { x: 1, y: 1, width: 5, height: 0 }, at(0, 0)), None);
    assert_eq!(cursor_cell(Rect { x: u16::MAX, y: 0, width: 5, height: 5 }, at(0, 1)), None);
    assert_eq!(cursor_cell(Rect { x: u16::MAX, y: 0, width: 5, height: 5 }, at(0, 0)), Some((u16::MAX, 0)));
}

#[test]
fn search_finds_pieces() {
    let hay = to_chars("hello world");
    assert_eq!(hay.len(), 11);
    assert!(contains(&hay, &to_chars("")));
    assert!(contains(&hay, &to_chars("hello")));
    assert!(contains(&hay, &to_chars("o w")));
    assert!(contains(&hay, &to_chars("world")));
    assert!(contains(&hay, &to_chars("hello world")));
    assert!(!contains(&hay, &to_chars("hello world!")));
    assert!(!contains(&hay, &to_chars("wor1d")));
    assert!(!contains(&to_chars(""), &to_chars("a")));
    assert!(contains(&to_chars(""), &to_chars("")));
    assert!(contains(&to_chars("aab"), &to_chars("ab")));
}

#[test]
fn filter_ignores_case_and_surrounding_space() {
    let filter = LogFilter::new("  FiX ");
    assert!(!filter.is_empty());
    assert!(filter.matches("prefix"));
    assert!(filter.matches("A FIX for it"));
    assert!(!filter.matches("f i x"));
    let all = LogFilter::new("   ");
    assert!(all.is_empty());
    assert!(all.matches(""));
    assert!(all.matches("anything"));
    let korean = LogFilter::new("버그");
    assert!(korean.matches("로그인 버그 수정"));
    assert!(!korean.matches("로그인"));
}

#[test]
fn download_status_stays_long() {
    assert_eq!((NOTICE_SECONDS, DOWNLOAD_SECONDS), (2, 300));
    assert_eq!(status_seconds("모델이 없어 다운로드합니다..."), 300);
    assert_eq!(status_seconds("모델 다운로드 완료"), 2);
    assert_eq!(status_seconds("녹음중... v 누르면 종료"), 2);
    assert_eq!(status_seconds(""), 2);
}

#[test]
fn voice_failures_are_told_apart() {
    assert_eq!(voice_failure("녹음이 취소되었습니다"), VoiceFailure::Cancelled);
    assert_eq!(voice_failure("녹음이 취소되었습니다."), VoiceFailure::Other);
    assert_eq!(voice_failure("녹음이"), VoiceFailure::Other);
    assert_eq!(voice_failure(""), VoiceFailure::Other);
    assert_eq!(voice_failure("모델 준비 실패: 다운로드 요청 실패"), VoiceFailure::ModelNotReady);
    assert_eq!(voice_failure("모델 준비 실패:"), VoiceFailure::ModelNotReady);
    assert_eq!(voice_failure("마이크 장치가 없습니다"), VoiceFailure::Other);
    assert_eq!(failure_seconds(VoiceFailure::ModelNotReady), 6);
    assert_eq!(failure_seconds(VoiceFailure::Other), 2);
    assert_eq!(failure_seconds(VoiceFailure::Cancelled), 2);
}

#[test]
fn transcripts_are_trimmed() {
    assert_eq!(transcript_entry("  안녕하세요 \n"), Some("안녕하세요".to_string()));
    assert_eq!(transcript_entry(" \n "), None);
    assert_eq!(transcript_entry(""), None);
}

fn ids(file: &BranchLogFile<u8>) -> Vec<(String, u8, String)> {
    file.items
        .iter()
        .map(|it| (it.id.clone(), it.created_at, it.text.clone()))
        .collect()
}

fn entry(id: &str, created_at: u8, text: &str) -> (String, u8, String) {
    (id.to_string(), created_at, text.to_string())
}

#[test]
fn log_entries_are_appended_with_their_time_as_id() {
    let mut file: BranchLogFile<u8> = BranchLogFile::new("feature/x");
    assert_eq!(file.branch, "feature/x");
    assert!(file.items.is_empty());
    file.append_text(1700000000123, 1, "first");
    file.append_text(-5, 2, "second");
    file.append_text(0, 3, "");
    assert_eq!(
        ids(&file),
        vec![entry("1700000000123", 1, "first"), entry("-5", 2, "second"), entry("0", 3, "")]
    );
    let mut extreme: BranchLogFile<u8> = BranchLogFile::new("");
    extreme.append_text(i64::MIN, 0, "a");
    extreme.append_text(i64::MAX, 0, "b");
    assert_eq!(extreme.items[0].id, i64::MIN.to_string());
    assert_eq!(extreme.items[1].id, i64::MAX.to_string());
}

#[test]
fn log_entry_is_updated_by_id() {
    let mut file: BranchLogFile<u8> = BranchLogFile::new("main");
    file.append_text(1, 1, "a");
    file.append_text(2, 2, "b");
    file.append_text(2, 3, "c");
    assert!(file.update_text_by_id("2", "B"));
    assert_eq!(ids(&file), vec![entry("1", 1, "a"), entry("2", 2, "B"), entry("2", 3, "c")]);
    assert!(!file.update_text_by_id("3", "x"));
    assert!(!file.update_text_by_id("", "x"));
    assert_eq!(ids(&file), vec![entry("1", 1, "a"), entry("2", 2, "B"), entry("2", 3, "c")]);
    assert!(file.update_text_by_id("1", ""));
    assert_eq!(file.items[0].text, "");
    assert_eq!(file.branch, "main");
}

#[test]
fn log_entries_are_deleted_by_id() {
    let mut file: BranchLogFile<u8> = BranchLogFile::new("main");
    for (ms, at) in [(1, 1), (2, 2), (3, 3), (2, 4), (5, 5)] {
        file.append_text(ms, at, "t");
    }
    assert!(!file.delete_by_id("4"));
    assert_eq!(file.items.len(), 5);
    assert!(file.delete_by_id("2"));
    assert_eq!(ids(&file), vec![entry("1", 1, "t"), entry("3", 3, "t"), entry("5", 5, "t")]);
    assert!(file.delete_by_id("1"));
    assert!(file.delete_by_id("5"));
    assert!(file.delete_by_id("3"));
    assert!(file.items.is_empty());
    assert!(!file.delete_by_id("3"));
}
