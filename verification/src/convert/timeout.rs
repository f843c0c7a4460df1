//! Errors from elapsed asynchronous deadlines.

use std::borrow::Cow;

use vstd::prelude::*;

use crate::context::{built_context, built_error, text_field, Context, ContextView};
use crate::error::Error;
use crate::field;
use crate::kind::AppErrorKind;

verus! {

/// The context of an elapsed deadline: a timeout naming its source.
pub open spec fn elapsed_context() -> ContextView {
    built_context(AppErrorKind::Timeout, seq![text_field("timeout.source", Cow::Borrowed("tokio::time::timeout"))])
}

/// The error of an elapsed deadline, caused by the given chain.
pub fn elapsed_error(source_chain: Vec<String>) -> (r: Error)
    ensures
        built_error(r, elapsed_context(), source_chain),
{
    let ctx = Context::new(AppErrorKind::Timeout).with(field::str("timeout.source", "tokio::time::timeout"));
    assert(ctx@ =~= elapsed_context());
    ctx.into_error(source_chain)
}

} // verus!
