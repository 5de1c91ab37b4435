//! What can go wrong while a screen does its work.

use vstd::prelude::*;
use vstd::string::*;

verus! {

/// The error of the save-data crate. Verus sees nothing inside it.
#[verifier::external_type_specification]
#[verifier::external_body]
pub struct ExSaveError(pkmn_savedata::SaveError);

/// A failure that is shown to the user.
pub enum AppError {
    /// Fewer than two save files were found.
    MissingFiles,
    /// The file system refused a request; the text says which.
    FsError(String),
    /// A party has no member at the chosen place.
    PokemonNotFound,
    /// The save-data crate refused a request.
    SaveError(pkmn_savedata::SaveError),
    /// Any other failure, in words.
    Custom(String),
}

/// A result whose error is shown to the user.
pub type Result<T> = core::result::Result<T, AppError>;

/// `SaveError`'s `to_string`: the text that the save-data crate gives for its
/// error. Nothing is claimed of it.
#[verifier::external_body]
fn save_error_text(error: &pkmn_savedata::SaveError) -> (text: String) {
    error.to_string()
}

/// The text before the file system's own words.
pub open spec fn fs_prefix() -> Seq<char> {
    "Filesystem error: "@
}

/// The text before the save-data crate's own words.
pub open spec fn save_prefix() -> Seq<char> {
    "Save error: "@
}

/// The text for missing save files.
pub open spec fn missing_files_text() -> Seq<char> {
    "You need at least two save files with the extension '.sav'. Place them in your home directory, for example ~/emerald.sav"@
}

/// The text for a missing party member.
pub open spec fn not_found_text() -> Seq<char> {
    "Pokemon not found."@
}

impl AppError {
    /// `text` is what is shown for this error. The words of the save-data
    /// crate are whatever that crate gives.
    pub open spec fn shows(&self, text: Seq<char>) -> bool {
        match self {
            AppError::MissingFiles => text == missing_files_text(),
            AppError::FsError(detail) => text == fs_prefix() + detail@,
            AppError::PokemonNotFound => text == not_found_text(),
            AppError::SaveError(_) => text.len() >= save_prefix().len() && text.take(
                save_prefix().len() as int,
            ) == save_prefix(),
            AppError::Custom(detail) => text == detail@,
        }
    }

    /// Returns the text that is shown for this error.
    pub fn message(&self) -> (text: String)
        ensures
            self.shows(text@),
    {
        match self {
            AppError::MissingFiles => String::from_str(
                "You need at least two save files with the extension '.sav'. Place them in your home directory, for example ~/emerald.sav",
            ),
            AppError::FsError(detail) => {
                let mut text = String::from_str("Filesystem error: ");
                text.append(detail.as_str());
                text
            },
            AppError::PokemonNotFound => String::from_str("Pokemon not found."),
            AppError::SaveError(error) => {
                let mut text = String::from_str("Save error: ");
                let words = save_error_text(error);
                text.append(words.as_str());
                assert(text@.take(save_prefix().len() as int) =~= save_prefix());
                text
            },
            AppError::Custom(detail) => detail.clone(),
        }
    }
}

} // verus!
