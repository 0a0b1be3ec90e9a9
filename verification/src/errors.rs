//! Why an install did not go through.

use vstd::prelude::*;
use vstd::string::StringExecFns;

verus! {

/// What an [`InstallError`] stands for.
pub enum InstallErrorView {
    MissingTarget,
    IoFailure { operation: Seq<char>, cause: Seq<char> },
    MalformedArchive,
}

/// The first step of an install that failed.
pub enum InstallError {
    /// The game is not installed on this machine.
    MissingTarget,
    /// An operation on the disk or on the archive failed; `operation` names
    /// it, `cause` is what the platform reported.
    IoFailure { operation: String, cause: String },
    /// The archive could be read but gives the mod no name.
    MalformedArchive,
}

impl View for InstallError {
    type V = InstallErrorView;

    open spec fn view(&self) -> InstallErrorView {
        match self {
            InstallError::MissingTarget => InstallErrorView::MissingTarget,
            InstallError::IoFailure { operation, cause } => InstallErrorView::IoFailure {
                operation: operation@,
                cause: cause@,
            },
            InstallError::MalformedArchive => InstallErrorView::MalformedArchive,
        }
    }
}

/// The text ` failed: ` that parts the name of an operation from the cause.
pub open spec fn failed_infix() -> Seq<char> {
    seq![' ', 'f', 'a', 'i', 'l', 'e', 'd', ':', ' ']
}

impl InstallErrorView {
    /// The failure of `operation` for the reason `cause`.
    pub open spec fn io(operation: Seq<char>, cause: Seq<char>) -> InstallErrorView {
        InstallErrorView::IoFailure { operation, cause }
    }

    /// The error as one line of text. A failed operation reads as its name,
    /// ` failed: ` and the cause.
    pub open spec fn message(self) -> Seq<char> {
        match self {
            InstallErrorView::MissingTarget => "required game files are missing"@,
            InstallErrorView::IoFailure { operation, cause } => operation + failed_infix() + cause,
            InstallErrorView::MalformedArchive => "archive gives the mod no name"@,
        }
    }
}

impl Clone for InstallError {
    fn clone(&self) -> (copy: Self)
        ensures
            copy@ == self@,
    {
        match self {
            InstallError::MissingTarget => InstallError::MissingTarget,
            InstallError::IoFailure { operation, cause } => InstallError::IoFailure {
                operation: operation.clone(),
                cause: cause.clone(),
            },
            InstallError::MalformedArchive => InstallError::MalformedArchive,
        }
    }
}

impl InstallError {
    /// The failure of `operation` for the reason `cause`.
    pub fn io(operation: &str, cause: &str) -> (error: Self)
        ensures
            error@ == InstallErrorView::io(operation@, cause@),
    {
        InstallError::IoFailure { operation: operation.to_owned(), cause: cause.to_owned() }
    }

    /// The error as one line of text.
    pub fn message(&self) -> (text: String)
        ensures
            text@ == self@.message(),
    {
        match self {
            InstallError::MissingTarget => "required game files are missing".to_owned(),
            InstallError::IoFailure { operation, cause } => {
                proof {
                    reveal_strlit(" failed: ");
                    assert(" failed: "@ =~= failed_infix());
                }
                operation.clone().concat(" failed: ").concat(cause.as_str())
            },
            InstallError::MalformedArchive => "archive gives the mod no name".to_owned(),
        }
    }
}

/// Names the operation that a failure belongs to.
pub trait InstallResultExt<T>: Sized {
    /// What the platform reported, where the operation failed.
    spec fn cause(&self) -> Option<Seq<char>>;

    /// A success is handed on as it is; a failure becomes an
    /// [`InstallError::IoFailure`] of the operation `op` with the same cause.
    fn ctx(self, op: &'static str) -> (named: Result<T, InstallError>)
        ensures
            named is Ok <==> self.cause() is None,
            named matches Err(error) ==> self.cause() matches Some(cause) && error@
                == InstallErrorView::io(op@, cause);
}

impl<T> InstallResultExt<T> for Result<T, String> {
    open spec fn cause(&self) -> Option<Seq<char>> {
        match self {
            Ok(_) => None,
            Err(cause) => Some(cause@),
        }
    }

    fn ctx(self, op: &'static str) -> (named: Result<T, InstallError>)
        ensures
            self matches Ok(value) ==> named == Ok::<T, InstallError>(value),
    {
        match self {
            Ok(value) => Ok(value),
            Err(cause) => Err(InstallError::IoFailure { operation: op.to_owned(), cause }),
        }
    }
}

} // verus!
