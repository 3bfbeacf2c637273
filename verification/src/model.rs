//! Whether the speech model is at hand.

use vstd::prelude::*;

verus! {

/// A model that is ready to be loaded.
pub struct PreparedModel {
    pub path: String,
    /// Whether it had to be downloaded first.
    pub downloaded: bool,
}

/// What was found at the model's path.
pub enum ModelCheck {
    /// A file: the model is there.
    Ready(PreparedModel),
    /// Something that is no file.
    NotAFile,
    /// Nothing: the model has to be downloaded.
    Missing,
}

/// Judges the model's path from what the file system says of it.
pub fn prepare_model_path_with_status(path: String, exists: bool, is_file: bool) -> (check:
    ModelCheck)
    ensures
        match check {
            ModelCheck::Ready(model) => exists && is_file && model.path == path
                && !model.downloaded,
            ModelCheck::NotAFile => exists && !is_file,
            ModelCheck::Missing => !exists,
        },
{
    if exists {
        if is_file {
            ModelCheck::Ready(PreparedModel { path, downloaded: false })
        } else {
            ModelCheck::NotAFile
        }
    } else {
        ModelCheck::Missing
    }
}

/// The model after its download to `path`.
pub fn downloaded_model(path: String) -> (model: PreparedModel)
    ensures
        model.path == path,
        model.downloaded,
{
    PreparedModel { path, downloaded: true }
}

} // verus!
