//! What can go wrong while a launch is prepared.
use vstd::prelude::*;

verus! {

/// Errors that can occur during kernel launch preparation.
#[derive(Debug)]
pub enum LaunchError {
    /// The launch configuration is not well-formed; the text says why.
    InvalidConfig(String),
    /// The stream cannot take another launch.
    QueueFull,
    /// The stream no longer exists.
    StreamDestroyed,
}

/// A [`LaunchError`] as a mathematical value.
#[verifier::ext_equal]
pub enum LaunchErrorView {
    InvalidConfig(Seq<char>),
    QueueFull,
    StreamDestroyed,
}

impl View for LaunchError {
    type V = LaunchErrorView;

    open spec fn view(&self) -> LaunchErrorView {
        match *self {
            LaunchError::InvalidConfig(msg) => LaunchErrorView::InvalidConfig(msg@),
            LaunchError::QueueFull => LaunchErrorView::QueueFull,
            LaunchError::StreamDestroyed => LaunchErrorView::StreamDestroyed,
        }
    }
}

impl LaunchErrorView {
    /// The sentence that reports the error to a person.
    pub open spec fn message(self) -> Seq<char> {
        match self {
            LaunchErrorView::InvalidConfig(msg) => "invalid config: "@ + msg,
            LaunchErrorView::QueueFull => "stream queue is full"@,
            LaunchErrorView::StreamDestroyed => "stream has been destroyed"@,
        }
    }
}

impl Clone for LaunchError {
    fn clone(&self) -> (r: Self)
        ensures
            r == *self,
    {
        match self {
            LaunchError::InvalidConfig(msg) => LaunchError::InvalidConfig(msg.clone()),
            LaunchError::QueueFull => LaunchError::QueueFull,
            LaunchError::StreamDestroyed => LaunchError::StreamDestroyed,
        }
    }
}

impl LaunchError {
    /// A [`LaunchError::InvalidConfig`] with the given text.
    pub(crate) fn invalid_config(msg: impl Into<String>) -> (r: Self)
        ensures
            r matches LaunchError::InvalidConfig(s) && call_ensures(
                Into::<String>::into,
                (msg,),
                s,
            ),
    {
        LaunchError::InvalidConfig(msg.into())
    }

    /// The error as a sentence for a person to read.
    pub fn to_string(&self) -> (r: String)
        ensures
            r@ == self@.message(),
    {
        match self {
            LaunchError::InvalidConfig(msg) => {
                let mut r: String = "invalid config: ".into();
                r.append(msg.as_str());
                r
            },
            LaunchError::QueueFull => "stream queue is full".into(),
            LaunchError::StreamDestroyed => "stream has been destroyed".into(),
        }
    }
}

/// An error's view tells the variants apart and keeps the text.
pub proof fn law_error_view(e: LaunchError)
    ensures
        e matches LaunchError::InvalidConfig(msg) ==> e@ == LaunchErrorView::InvalidConfig(msg@),
        e is QueueFull ==> e@ is QueueFull,
        e is StreamDestroyed ==> e@ is StreamDestroyed,
{
}

/// What an error reads: a configuration that is not valid is announced, and
/// its defect follows word for word; the other errors have a sentence each.
pub proof fn law_error_reads(e: LaunchError, r: String)
    requires
        call_ensures(LaunchError::to_string, (&e,), r),
    ensures
        e matches LaunchError::InvalidConfig(msg) ==> {
            &&& r@.len() == 16 + msg@.len()
            &&& r@.subrange(0, 16) == "invalid config: "@
            &&& r@.subrange(16, r@.len() as int) == msg@
        },
        e is QueueFull ==> r@ == "stream queue is full"@,
        e is StreamDestroyed ==> r@ == "stream has been destroyed"@,
{
    reveal_strlit("invalid config: ");
    if let LaunchError::InvalidConfig(msg) = e {
        assert(r@.subrange(0, 16) =~= "invalid config: "@);
        assert(r@.subrange(16, r@.len() as int) =~= msg@);
    }
}

} // verus!
