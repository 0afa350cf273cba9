//! A uniform, structured form for failures of any origin: a type identifier,
//! a human-readable message and the chain of causes.
use vstd::prelude::*;
use vstd::string::*;

verus! {

/// The message of a lifted failure and the failure that caused it, if any.
#[derive(Debug, PartialEq, Eq)]
pub struct AnyErrorContext {
    pub message: String,
    pub inner_error: Option<Box<AnyError>>,
}

/// A failure lifted out of the type that it was raised as.
#[derive(Debug, PartialEq, Eq)]
pub struct AnyError {
    /// The path of the type that the failure was raised as, its segments
    /// joined by dots.
    pub error_type: String,
    pub context: AnyErrorContext,
}

/// `path` with every `::` replaced by a single dot, scanning from the left.
pub open spec fn dotted(path: Seq<char>) -> Seq<char>
    decreases path.len(),
{
    if path.len() == 0 {
        path
    } else if path.len() >= 2 && path[0] == ':' && path[1] == ':' {
        seq!['.'] + dotted(path.skip(2))
    } else {
        seq![path[0]] + dotted(path.skip(1))
    }
}

/// Writes a type path with dots between its segments.
pub fn dotted_path(path: &str) -> (out: String)
    ensures
        out@ == dotted(path@),
{
    let len = path.unicode_len();
    let mut out = String::new();
    let mut i: usize = 0;
    assert(path@.skip(0) =~= path@);
    while i < len
        invariant
            len == path@.len(),
            i <= len,
            dotted(path@) == out@ + dotted(path@.skip(i as int)),
        decreases len - i,
    {
        let ghost rest = path@.skip(i as int);
        if i + 1 < len && path.get_char(i) == ':' && path.get_char(i + 1) == ':' {
            proof {
                reveal_strlit(".");
                assert(rest.skip(2) =~= path@.skip(i + 2));
                assert("."@ =~= seq!['.']);
                assert((out@ + "."@) + dotted(path@.skip(i + 2)) =~= out@ + (seq!['.'] + dotted(
                    rest.skip(2),
                )));
            }
            out.append(".");
            i = i + 2;
        } else {
            proof {
                assert(rest.skip(1) =~= path@.skip(i + 1));
                assert(path@.subrange(i as int, i + 1) =~= seq![rest[0]]);
                assert((out@ + seq![rest[0]]) + dotted(path@.skip(i + 1)) =~= out@ + (seq![rest[0]]
                    + dotted(rest.skip(1))));
            }
            out.append(path.substring_char(i, i + 1));
            i = i + 1;
        }
    }
    assert(out@ + Seq::<char>::empty() =~= out@);
    out
}

impl Clone for AnyErrorContext {
    fn clone(&self) -> (copy: AnyErrorContext)
        ensures
            copy == *self,
    {
        AnyErrorContext {
            message: self.message.clone(),
            inner_error: match &self.inner_error {
                Some(inner) => Some(Box::new(inner.duplicate())),
                None => None,
            },
        }
    }
}

impl Clone for AnyError {
    fn clone(&self) -> (copy: AnyError)
        ensures
            copy == *self,
    {
        self.duplicate()
    }
}

impl AnyError {
    /// A copy of this failure and of all its causes.
    pub fn duplicate(&self) -> (copy: AnyError)
        ensures
            copy == *self,
        decreases self,
    {
        let inner_error = match &self.context.inner_error {
            Some(inner) => Some(Box::new(inner.duplicate())),
            None => None,
        };
        AnyError {
            error_type: self.error_type.clone(),
            context: AnyErrorContext { message: self.context.message.clone(), inner_error },
        }
    }

    /// Lifts a failure, given the path of its type, its message and its cause.
    pub fn new(type_path: &str, message: String, inner_error: Option<AnyError>) -> (e: AnyError)
        ensures
            e.error_type@ == dotted(type_path@),
            e.context.message == message,
            e.cause() == inner_error,
    {
        let inner = match inner_error {
            Some(cause) => Some(Box::new(cause)),
            None => None,
        };
        AnyError {
            error_type: dotted_path(type_path),
            context: AnyErrorContext { message, inner_error: inner },
        }
    }

    /// The failure that caused this one, if it recorded one.
    pub open spec fn cause(&self) -> Option<AnyError> {
        match self.context.inner_error {
            Some(inner) => Some(*inner),
            None => None,
        }
    }

    /// The text shown for this failure: its message, without the causes.
    pub fn to_string(&self) -> (text: String)
        ensures
            text@ == self.context.message@,
    {
        self.context.message.clone()
    }
}

} // verus!
