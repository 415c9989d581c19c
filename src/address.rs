//! The handle through which other parties reach one actor.
use vstd::prelude::*;

use tokio::sync::watch;

use crate::channels::{latest_status, subscribe_status};
use crate::lifecycle::LifecycleStatus;
use crate::message::Postman;
use vstd::string::{to_string_from_display_ensures, StringExecFns};

verus! {

/// The identifier of one actor instance, unique for its lifetime.
#[derive(Debug, Clone, Copy, PartialEq, Eq, Structural, Hash)]
pub struct Pid {
    id: u64,
}

impl Pid {
    pub closed spec fn view(&self) -> u64 {
        self.id
    }

    pub fn new(id: u64) -> (r: Self)
        ensures
            r@ == id,
    {
        Pid { id }
    }

    pub fn id(&self) -> (r: u64)
        ensures
            r == self@,
    {
        self.id
    }
}

/// A cloneable handle on one actor: its identifier, its status broadcast and
/// the producing end of its data plane, which carries envelopes of type `E`.
/// Clones share the same channels.
#[verifier::reject_recursive_types(E)]
pub struct Address<E> {
    pub pid: Pid,
    status_rx: watch::Receiver<LifecycleStatus>,
    message_tx: Postman<E>,
}

impl<E> Address<E> {
    /// The identifier of the actor that this handle reaches.
    pub closed spec fn spec_pid(&self) -> Pid {
        self.pid
    }

    pub fn new(pid: Pid, status_rx: watch::Receiver<LifecycleStatus>, message_tx: Postman<E>) -> (r:
        Self)
        ensures
            r.spec_pid() == pid,
    {
        Address { pid, status_rx, message_tx }
    }

    /// The most recently published status; it does not wait.
    pub fn get_status(&self) -> (r: LifecycleStatus) {
        latest_status(&self.status_rx)
    }

    /// A new, independent cursor over the status broadcast.
    pub fn status_subscribe(&self) -> (r: watch::Receiver<LifecycleStatus>) {
        subscribe_status(&self.status_rx)
    }

    /// The handle written out as `Address(<pid>)`, the pid in decimal.
    pub fn describe(&self) -> (r: String)
        ensures
            exists|digits: String|
                #[trigger] to_string_from_display_ensures::<u64>(&self.spec_pid()@, digits) && r@
                    == "Address("@ + digits@ + ")"@,
    {
        let id = self.pid.id();
        let digits = id.to_string();
        let mut r = String::from_str("Address(");
        r.append(digits.as_str());
        r.append(")");
        assert(to_string_from_display_ensures::<u64>(&self.spec_pid()@, digits));
        assert(r@ == "Address("@ + digits@ + ")"@);
        r
    }

    /// The producing end of the actor's data plane.
    pub fn postman(&self) -> (r: &Postman<E>) {
        &self.message_tx
    }
}

impl<E> Clone for Address<E> {
    fn clone(&self) -> (r: Self)
        ensures
            r.spec_pid() == self.spec_pid(),
    {
        Address {
            pid: self.pid,
            status_rx: subscribe_status(&self.status_rx),
            message_tx: self.message_tx.clone(),
        }
    }
}

} // verus!
