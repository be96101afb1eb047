//! Stream provisioning: idempotently resets and declares the configured
//! streams before any publishing starts.
//!
//! For each spec the provisioner first asks the broker to delete any
//! existing stream of that name (any delete failure is swallowed: the
//! stream is simply expected to be absent on a first run), then declares
//! the stream durable, non-auto-delete and with the stream type marker.
//! A declaration failure is fatal to startup.
//!
//! The broker itself is an external collaborator, so the module carries a
//! ghost model of its declared state — a map from stream name to shape —
//! and proves over it that one run declares every configured name with the
//! required shape, and that a second identical run changes nothing.

use vstd::prelude::*;
use crate::config::StreamSpec;
use crate::errors::GenError;

verus! {

/// The shape a declared queue has on the broker, as far as the generator
/// cares: the durability flags and the queue type marker.
pub struct QueueShape {
    pub durable: bool,
    pub auto_delete: bool,
    pub queue_type: Seq<char>,
}

/// The characters of the stream type marker.
pub open spec fn stream_type_chars() -> Seq<char> {
    seq!['s', 't', 'r', 'e', 'a', 'm']
}

/// The shape every provisioned stream must have.
pub open spec fn stream_shape() -> QueueShape {
    QueueShape { durable: true, auto_delete: false, queue_type: stream_type_chars() }
}

/// The ghost model of the broker's declared queues.
pub type BrokerModel = Map<Seq<char>, QueueShape>;

/// The broker after deleting, then declaring, one stream name.
pub open spec fn provision_one(b: BrokerModel, name: Seq<char>) -> BrokerModel {
    b.remove(name).insert(name, stream_shape())
}

/// The broker after one full provisioning run over `names`, in order.
pub open spec fn provision_all(b: BrokerModel, names: Seq<Seq<char>>) -> BrokerModel
    decreases names.len(),
{
    if names.len() == 0 {
        b
    } else {
        provision_all(provision_one(b, names[0]), names.drop_first())
    }
}

/// The names of a list of specs, in order.
pub open spec fn names_of(specs: Seq<StreamSpec>) -> Seq<Seq<char>> {
    specs.map_values(|s: StreamSpec| s.name@)
}

/// What one run does to each key of the broker: every provisioned name is
/// declared with the stream shape, and every other queue is untouched.
/// This is the per-key form of the post-provisioning guarantee.
pub proof fn lemma_provision_all_pointwise(b: BrokerModel, names: Seq<Seq<char>>, k: Seq<char>)
    ensures
        names.contains(k) ==> provision_all(b, names).contains_key(k) && provision_all(
            b,
            names,
        )[k] == stream_shape(),
        !names.contains(k) ==> provision_all(b, names).contains_key(k) == b.contains_key(k)
            && (b.contains_key(k) ==> provision_all(b, names)[k] == b[k]),
    decreases names.len(),
{
    if names.len() > 0 {
        let b1 = provision_one(b, names[0]);
        lemma_provision_all_pointwise(b1, names.drop_first(), k);
        if names.contains(k) {
            if k == names[0] && !names.drop_first().contains(k) {
                assert(b1.contains_key(k) && b1[k] == stream_shape());
            } else if k != names[0] {
                let i = choose|i: int| 0 <= i < names.len() && names[i] == k;
                assert(names.drop_first()[i - 1] == k);
                assert(names.drop_first().contains(k));
            }
        } else {
            assert(!names.drop_first().contains(k)) by {
                if names.drop_first().contains(k) {
                    let i = choose|i: int|
                        0 <= i < names.drop_first().len() && names.drop_first()[i] == k;
                    assert(names[i + 1] == k);
                }
            }
            assert(k != names[0]);
        }
    }
}

/// After a successful run, every configured name exists as a stream that
/// is durable, not auto-deleted, and marked with the stream type.
pub proof fn lemma_provision_all_declares(b: BrokerModel, names: Seq<Seq<char>>)
    ensures
        forall|i: int|
            0 <= i < names.len() ==> provision_all(b, names).contains_key(#[trigger] names[i])
                && provision_all(b, names)[names[i]] == stream_shape(),
{
    assert forall|i: int| 0 <= i < names.len() implies provision_all(b, names).contains_key(
        #[trigger] names[i],
    ) && provision_all(b, names)[names[i]] == stream_shape() by {
        lemma_provision_all_pointwise(b, names, names[i]);
    }
}

/// Idempotence: running the same provisioning pass twice leaves the broker
/// exactly as one run does — delete-then-declare is safe to repeat.
pub proof fn lemma_provision_all_idempotent(b: BrokerModel, names: Seq<Seq<char>>)
    ensures
        provision_all(provision_all(b, names), names) == provision_all(b, names),
{
    let once = provision_all(b, names);
    let twice = provision_all(once, names);
    assert forall|k: Seq<char>| #[trigger] twice.contains_key(k) implies once.contains_key(k)
        && once[k] == twice[k] by {
        lemma_provision_all_pointwise(b, names, k);
        lemma_provision_all_pointwise(once, names, k);
    }
    assert forall|k: Seq<char>| #[trigger] once.contains_key(k) implies twice.contains_key(
        k,
    ) by {
        lemma_provision_all_pointwise(b, names, k);
        lemma_provision_all_pointwise(once, names, k);
    }
    assert(twice =~= once);
}

/// Where the provisioner stands within the current spec.
#[derive(Clone, Copy, PartialEq, Eq, Structural)]
pub enum ProvisionStage {
    /// About to ask for the (tolerated) delete of the current name.
    Deleting,
    /// Delete done or swallowed; about to declare the current name.
    Declaring,
    /// Every spec has been declared.
    Complete,
    /// A declaration failed; startup must abort.
    Failed,
}

/// The next broker call the driver must make, or the terminal outcome.
pub enum ProvisionAction {
    /// Best-effort delete of the named stream; any failure is tolerated.
    DeleteStream { name: String },
    /// Authoritative declaration of the named stream with the given shape.
    DeclareStream { name: String, durable: bool, auto_delete: bool, queue_type: String },
    /// Provisioning finished: publishing may start.
    Finished,
    /// Provisioning failed: the process must not proceed to publish.
    Aborted,
}

/// The idempotent delete-then-declare pass over the configured specs,
/// one broker call at a time. The driver alternates `next_action` with
/// the matching completion call; the broker I/O itself stays outside.
pub struct StreamProvisioner {
    pub specs: Vec<StreamSpec>,
    pub next: usize,
    pub stage: ProvisionStage,
}

impl StreamProvisioner {
    /// The machine never points past the spec list, and only mid-run
    /// stages point at a current spec.
    pub open spec fn wf(&self) -> bool {
        &&& self.next <= self.specs@.len()
        &&& (self.stage == ProvisionStage::Deleting || self.stage == ProvisionStage::Declaring)
            ==> self.next < self.specs@.len()
        &&& self.stage == ProvisionStage::Complete ==> self.next == self.specs@.len()
    }

    /// Starts a run over `specs`; an empty list is complete at once.
    pub fn new(specs: Vec<StreamSpec>) -> (r: StreamProvisioner)
        ensures
            r.wf(),
            r.specs@ == specs@,
            r.next == 0,
            specs@.len() == 0 ==> r.stage == ProvisionStage::Complete,
            specs@.len() > 0 ==> r.stage == ProvisionStage::Deleting,
    {
        let stage = if specs.len() == 0 {
            ProvisionStage::Complete
        } else {
            ProvisionStage::Deleting
        };
        StreamProvisioner { specs, next: 0, stage }
    }

    /// The broker call to make now. Mid-run it names the current spec;
    /// the declare always carries the required stream shape.
    pub fn next_action(&self) -> (r: ProvisionAction)
        requires
            self.wf(),
        ensures
            self.stage == ProvisionStage::Deleting ==> (r
                matches ProvisionAction::DeleteStream { name } && name@
                == self.specs@[self.next as int].name@),
            self.stage == ProvisionStage::Declaring ==> (r
                matches ProvisionAction::DeclareStream { name, durable, auto_delete, queue_type }
                && name@ == self.specs@[self.next as int].name@ && durable == true && auto_delete
                == false && queue_type@ == stream_type_chars()),
            self.stage == ProvisionStage::Complete ==> r == ProvisionAction::Finished,
            self.stage == ProvisionStage::Failed ==> r == ProvisionAction::Aborted,
    {
        match self.stage {
            ProvisionStage::Deleting => ProvisionAction::DeleteStream {
                name: self.specs[self.next].name.clone(),
            },
            ProvisionStage::Declaring => {
                let queue_type = String::from_str("stream");
                proof {
                    reveal_strlit("stream");
                    assert(queue_type@ =~= stream_type_chars());
                }
                ProvisionAction::DeclareStream {
                    name: self.specs[self.next].name.clone(),
                    durable: true,
                    auto_delete: false,
                    queue_type,
                }
            },
            ProvisionStage::Complete => ProvisionAction::Finished,
            ProvisionStage::Failed => ProvisionAction::Aborted,
        }
    }

    /// Records that the delete call came back, whatever its outcome: a
    /// delete failure is swallowed, so the machine moves on to declare.
    pub fn on_delete_done(&mut self)
        requires
            old(self).wf(),
            old(self).stage == ProvisionStage::Deleting,
        ensures
            final(self).wf(),
            final(self).specs@ == old(self).specs@,
            final(self).next == old(self).next,
            final(self).stage == ProvisionStage::Declaring,
    {
        self.stage = ProvisionStage::Declaring;
    }

    /// Records the declare outcome. Success moves to the next spec, or
    /// completes the run; failure is fatal and aborts startup.
    pub fn on_declare_done(&mut self, ok: bool) -> (r: Result<(), GenError>)
        requires
            old(self).wf(),
            old(self).stage == ProvisionStage::Declaring,
        ensures
            final(self).wf(),
            final(self).specs@ == old(self).specs@,
            !ok ==> final(self).stage == ProvisionStage::Failed && final(self).next == old(
                self,
            ).next && r == Err::<(), GenError>(GenError::Provisioning),
            ok ==> final(self).next == old(self).next + 1 && r == Ok::<(), GenError>(()),
            ok && old(self).next + 1 == old(self).specs@.len() ==> final(self).stage
                == ProvisionStage::Complete,
            ok && old(self).next + 1 < old(self).specs@.len() ==> final(self).stage
                == ProvisionStage::Deleting,
    {
        if !ok {
            self.stage = ProvisionStage::Failed;
            return Err(GenError::Provisioning);
        }
        let n = self.specs.len();
        assert(self.next < n);
        self.next = self.next + 1;
        if self.next == n {
            self.stage = ProvisionStage::Complete;
        } else {
            self.stage = ProvisionStage::Deleting;
        }
        Ok(())
    }

    /// Whether the run has completed successfully.
    pub fn is_complete(&self) -> (r: bool)
        ensures
            r == (self.stage == ProvisionStage::Complete),
    {
        self.stage == ProvisionStage::Complete
    }
}

} // verus!
