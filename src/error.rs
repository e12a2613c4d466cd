//! Errors of a resolution step.
use vstd::prelude::*;

verus! {

/// Why a resolution from a container failed.
///
/// Most often this is `MissingProvider`.
#[derive(Debug, Clone, Copy, PartialEq, Eq, Structural)]
pub enum InjectError {
    /// The installed provider was not of the kind that was asked for.
    FailedCast,
    /// No provider is installed for the requested identity.
    MissingProvider,
}

/// The text shown for an error.
pub open spec fn error_message(e: InjectError) -> Seq<char> {
    match e {
        InjectError::FailedCast => "failed cast"@,
        InjectError::MissingProvider => "no provider available"@,
    }
}

impl InjectError {
    /// A human-readable description of the error.
    pub fn message(&self) -> (r: String)
        ensures
            r@ == error_message(*self),
    {
        match self {
            InjectError::FailedCast => String::from_str("failed cast"),
            InjectError::MissingProvider => String::from_str("no provider available"),
        }
    }
}

} // verus!

verus! {

/// Why a macro form could not be expanded: a diagnostic at compile time.
#[derive(Debug)]
pub enum ExpandError {
    /// The input does not follow the form's grammar; the text says what was expected.
    Malformed(String),
    /// A name is given twice among annotation arguments of one kind.
    Duplicate(String),
    /// An annotation argument names no parameter of the signature.
    Unknown { name: String, expected: Vec<String> },
    /// The annotated signature takes a receiver (`self`).
    SelfReceiver,
    /// A free function names `Self` as its return type.
    SelfInFreeFunction,
}

/// The names `'a', 'b', ...`: each quoted, separated by `, `.
pub open spec fn quoted_list(names: Seq<Seq<char>>) -> Seq<char>
    decreases names.len(),
{
    if names.len() == 0 {
        Seq::empty()
    } else if names.len() == 1 {
        "'"@ + names[0] + "'"@
    } else {
        quoted_list(names.drop_last()) + ", '"@ + names.last() + "'"@
    }
}

/// The diagnostic shown for an expansion error.
pub open spec fn expand_message(e: ExpandError) -> Seq<char> {
    match e {
        ExpandError::Malformed(m) => m@,
        ExpandError::Duplicate(n) => "duplicate identifier '"@ + n@ + "'"@,
        ExpandError::Unknown { expected, .. } => "unknown identifier, expected "@ + quoted_list(
            crate::text::views(expected@),
        ),
        ExpandError::SelfReceiver => "not allowed to reference 'self'"@,
        ExpandError::SelfInFreeFunction => "'Self' not allowed in free function"@,
    }
}

impl ExpandError {
    /// A human-readable description of the error; an unknown name is reported with the names
    /// that would have been accepted.
    pub fn message(&self) -> (r: String)
        ensures
            r@ == expand_message(*self),
    {
        match self {
            ExpandError::Malformed(m) => m.clone(),
            ExpandError::Duplicate(n) => {
                let mut r = String::from_str("duplicate identifier '");
                r.append(n.as_str());
                r.append("'");
                r
            },
            ExpandError::Unknown { expected, .. } => {
                let ghost v = crate::text::views(expected@);
                let mut r = String::from_str("unknown identifier, expected ");
                let ghost head = r@;
                let mut i: usize = 0;
                while i < expected.len()
                    invariant
                        v == crate::text::views(expected@),
                        i <= expected@.len(),
                        r@ == head + quoted_list(v.subrange(0, i as int)),
                    decreases expected@.len() - i,
                {
                    assert(v.subrange(0, i as int + 1).drop_last() =~= v.subrange(0, i as int));
                    if i > 0 {
                        r.append(", '");
                    } else {
                        r.append("'");
                    }
                    r.append(expected[i].as_str());
                    r.append("'");
                    proof {
                        reveal_strlit("'");
                        reveal_strlit(", '");
                    }
                    assert(r@ =~= head + quoted_list(v.subrange(0, i as int + 1)));
                    i = i + 1;
                }
                assert(v.subrange(0, i as int) =~= v);
                r
            },
            ExpandError::SelfReceiver => String::from_str("not allowed to reference 'self'"),
            ExpandError::SelfInFreeFunction => String::from_str("'Self' not allowed in free function"),
        }
    }
}

} // verus!
