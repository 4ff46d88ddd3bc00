use vstd::prelude::*;

verus! {

/// `std::io::Error`, carried through unchanged inside [`FabelaError::Io`].
#[verifier::external_type_specification]
#[verifier::external_body]
pub struct ExIoError(std::io::Error);

/// `std::string::FromUtf8Error`, carried through inside [`FabelaError::Utf8`].
#[verifier::external_type_specification]
#[verifier::external_body]
pub struct ExFromUtf8Error(std::string::FromUtf8Error);

/// Every failure the runtime reports to its user.
#[derive(Debug)]
pub enum FabelaError {
    /// An I/O operation failed; `context` says which one.
    Io { context: String, source: std::io::Error },
    /// The JavaScript engine failed or a script threw.
    Vm(String),
    /// An embedded payload is not valid UTF-8.
    Utf8(std::string::FromUtf8Error),
    /// Building or reading a compiled executable failed.
    Compile(String),
    /// Generic runtime error.
    Runtime(String),
}

/// The mathematical form of a [`FabelaError`]: its texts as character
/// sequences, the carried outside errors unchanged.
pub enum ErrorView {
    Io { context: Seq<char>, source: std::io::Error },
    Vm(Seq<char>),
    Utf8(std::string::FromUtf8Error),
    Compile(Seq<char>),
    Runtime(Seq<char>),
}

impl View for FabelaError {
    type V = ErrorView;

    open spec fn view(&self) -> ErrorView {
        match self {
            FabelaError::Io { context, source } => ErrorView::Io { context: context@, source: *source },
            FabelaError::Vm(m) => ErrorView::Vm(m@),
            FabelaError::Utf8(e) => ErrorView::Utf8(*e),
            FabelaError::Compile(m) => ErrorView::Compile(m@),
            FabelaError::Runtime(m) => ErrorView::Runtime(m@),
        }
    }
}

/// Attaches a description of the operation to an I/O failure.
pub trait IoContext<T>: Sized {
    fn io_context(self, context: String) -> Result<T, FabelaError>;
}

/// What `io_context` makes of `r`: success passes through unchanged and an
/// I/O error becomes [`FabelaError::Io`] with the given context.
pub open spec fn with_io_context<T>(r: Result<T, std::io::Error>, context: String) -> Result<T, FabelaError> {
    match r {
        Ok(v) => Ok(v),
        Err(e) => Err(FabelaError::Io { context: context, source: e }),
    }
}

impl<T> IoContext<T> for Result<T, std::io::Error> {
    fn io_context(self, context: String) -> (res: Result<T, FabelaError>)
        ensures
            res == with_io_context(self, context),
    {
        match self {
            Ok(v) => Ok(v),
            Err(source) => Err(FabelaError::Io { context, source }),
        }
    }
}

} // verus!

verus! {

/// `io_context` keeps a success unchanged and turns an I/O error into
/// [`FabelaError::Io`] carrying that same error and the given context.
pub proof fn lemma_io_context<T>(v: T, e: std::io::Error, context: String)
    ensures
        with_io_context(Ok::<T, std::io::Error>(v), context) == Ok::<T, FabelaError>(v),
        with_io_context(Err::<T, std::io::Error>(e), context) matches Err(err) && err@ == (ErrorView::Io {
            context: context@,
            source: e,
        }),
{
}

} // verus!
