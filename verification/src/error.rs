use vstd::prelude::*;
use vstd::string::StringExecFns;

verus! {

pub type ErrResult<T> = Result<T, Error>;

/// A failure, described by a chain of messages: the cause first, then the
/// context of each caller it passed through.
#[derive(Debug)]
pub struct Error {
    message: String,
}

impl View for Error {
    type V = Seq<char>;

    closed spec fn view(&self) -> Seq<char> {
        self.message@
    }
}

/// What separates a message from the context that follows it.
pub open spec fn separator() -> Seq<char> {
    seq![' ', '=', '>', ' ']
}

impl Error {
    /// An error with `message` as its cause.
    pub fn new(message: &str) -> (error: Error)
        ensures
            error@ == message@,
    {
        Error { message: String::from_str(message) }
    }

    /// The whole message chain.
    pub fn message(&self) -> (message: &str)
        ensures
            message@ == self@,
    {
        self.message.as_str()
    }
}

pub trait Context<T>: Sized {
    /// The message chain, if this is a failure.
    spec fn chain(self) -> Option<Seq<char>>;

    /// Appends `info` to the message chain of a failure; a success passes
    /// through untouched.
    fn context(self, info: &str) -> (result: Self)
        ensures
            result.chain() == match self.chain() {
                Some(chain) => Some(chain + separator() + info@),
                None => None,
            },
    ;
}

impl<T> Context<T> for ErrResult<T> {
    open spec fn chain(self) -> Option<Seq<char>> {
        match self {
            Ok(_) => None,
            Err(error) => Some(error@),
        }
    }

    fn context(self, info: &str) -> (result: Self)
        ensures
            self is Ok ==> result == self,
    {
        match self {
            Ok(value) => Ok(value),
            Err(error) => {
                let Error { mut message } = error;
                proof {
                    reveal_strlit(" => ");
                    assert(" => "@ =~= separator());
                }
                message.append(" => ");
                message.append(info);
                Err(Error { message })
            },
        }
    }
}

} // verus!
