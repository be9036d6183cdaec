//! The sending half of the event channel, as the runtime backends receive it.

use vstd::prelude::*;
use tokio::sync::mpsc::Sender;

verus! {

/// The sending handle of a bounded multi-producer channel. Nothing inside it is
/// visible to proofs: the coordination core only stores and duplicates it.
#[verifier::external_type_specification]
#[verifier::external_body]
#[verifier::reject_recursive_types(T)]
pub struct ExSender<T>(tokio::sync::mpsc::Sender<T>);

/// Duplicates a sending handle with `Sender::clone`. The one claim is that the
/// result is a clone of `sender`, that is, what `Sender::clone` gives for it:
/// a handle of the same channel. Nothing is claimed of the channel itself.
#[verifier::external_body]
pub(crate) fn clone_sender<T>(sender: &Sender<T>) -> (handle: Sender<T>)
    ensures
        cloned(*sender, handle),
{
    sender.clone()
}

} // verus!
