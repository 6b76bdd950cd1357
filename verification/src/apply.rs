//! What applying a change set writes to the store.
//!
//! Each change decides its own write, whatever the other regions need. The
//! writes are issued in the order of the change set; the first that fails ends
//! the work, and what was written before it stays written.

use crate::parameter_type::{parameter_type_from_ref, ParameterType, ParameterTypeView};
use crate::ssm_change::{Action, SSMChange, SSMChangeView};
use vstd::prelude::*;

verus! {

/// One write to the store: the parameter `name` in `region` is to hold `value`.
///
/// Without a type the store updates the parameter in place and keeps the type
/// it has. With a type the store creates the parameter.
#[derive(Debug)]
pub struct WriteRequest {
    pub name: String,
    pub region: String,
    pub value: String,
    pub type_param: Option<ParameterType>,
}

/// What a `WriteRequest` is, with texts as sequences of characters.
pub struct WriteRequestView {
    pub name: Seq<char>,
    pub region: Seq<char>,
    pub value: Seq<char>,
    pub type_param: Option<ParameterTypeView>,
}

impl View for WriteRequest {
    type V = WriteRequestView;

    open spec fn view(&self) -> WriteRequestView {
        WriteRequestView {
            name: self.name@,
            region: self.region@,
            value: self.value@,
            type_param: match self.type_param {
                Some(kind) => Some(kind@),
                None => None,
            },
        }
    }
}

impl Clone for WriteRequest {
    fn clone(&self) -> (copy: WriteRequest)
        ensures
            copy@ == self@,
    {
        WriteRequest {
            name: self.name.clone(),
            region: self.region.clone(),
            value: self.value.clone(),
            type_param: match &self.type_param {
                Some(kind) => Some(kind.clone()),
                None => None,
            },
        }
    }
}

impl DeepView for WriteRequest {
    type V = WriteRequestView;

    open spec fn deep_view(&self) -> WriteRequestView {
        self@
    }
}

impl SSMChangeView {
    /// The write that this change asks for: none where nothing changes, one
    /// without a type for an update, one with the change's type for a creation.
    pub open spec fn write(self) -> Option<WriteRequestView> {
        match self.action {
            Action::NoAction => None,
            Action::Update => Some(
                WriteRequestView {
                    name: self.parameter,
                    region: self.region,
                    value: self.value,
                    type_param: None,
                },
            ),
            Action::Create => Some(
                WriteRequestView {
                    name: self.parameter,
                    region: self.region,
                    value: self.value,
                    type_param: Some(self.type_param),
                },
            ),
        }
    }
}

/// The writes that applying `changes` issues when none of them fails: the
/// write of each change that asks for one, in the order of `changes`.
pub open spec fn writes_for(changes: Seq<SSMChangeView>) -> Seq<WriteRequestView>
    decreases changes.len(),
{
    if changes.len() == 0 {
        Seq::empty()
    } else {
        let before = writes_for(changes.drop_last());
        match changes.last().write() {
            Some(write) => before.push(write),
            None => before,
        }
    }
}

/// Whether `write` is the write that `change` asks for: the write of an update
/// without a type, or the write of a creation with the type of the change.
pub open spec fn is_write_of(write: WriteRequestView, change: SSMChangeView) -> bool {
    &&& change.write() == Some(write)
    &&& write.name == change.parameter
    &&& write.region == change.region
    &&& write.value == change.value
    &&& match change.action {
        Action::NoAction => false,
        Action::Update => write.type_param is None,
        Action::Create => write.type_param == Some(change.type_param),
    }
}

/// The view of a request that may be missing.
pub open spec fn requested(request: Option<WriteRequest>) -> Option<WriteRequestView> {
    match request {
        Some(request) => Some(request@),
        None => None,
    }
}

impl SSMChange {
    /// Returns the write that this change asks for, if any.
    pub fn write_request(&self) -> (request: Option<WriteRequest>)
        ensures
            requested(request) == self@.write(),
            self.action == Action::NoAction <==> request is None,
            self.action == Action::Update ==> request is Some && request->Some_0.type_param
                is None,
            self.action == Action::Create ==> request is Some && request->Some_0@.type_param
                == Some(self.type_param@),
    {
        let type_param = match self.action {
            Action::NoAction => {
                return None;
            },
            Action::Update => None,
            Action::Create => Some(parameter_type_from_ref(&self.type_param)),
        };
        Some(
            WriteRequest {
                name: self.parameter.clone(),
                region: self.region.clone(),
                value: self.value.clone(),
                type_param,
            },
        )
    }
}

/// Returns the writes that applying `changes` issues, in the order in which
/// they are to be issued.
pub fn process_ssm_changes(changes: &Vec<SSMChange>) -> (writes: Vec<WriteRequest>)
    ensures
        writes.deep_view() == writes_for(changes.deep_view()),
{
    let mut writes: Vec<WriteRequest> = Vec::new();
    let mut i: usize = 0;
    assert(changes.deep_view().take(0) =~= Seq::empty());
    while i < changes.len()
        invariant
            i <= changes.len(),
            writes.deep_view() == writes_for(changes.deep_view().take(i as int)),
        decreases changes.len() - i,
    {
        let ghost before = writes.deep_view();
        assert(changes.deep_view().take(i + 1).drop_last() =~= changes.deep_view().take(i as int));
        assert(changes.deep_view().take(i + 1).last() == changes[i as int]@);
        match changes[i].write_request() {
            Some(request) => {
                writes.push(request);
                assert(writes.deep_view() =~= before.push(request@));
            },
            None => {},
        }
        i += 1;
    }
    assert(changes.deep_view().take(changes.len() as int) =~= changes.deep_view());
    writes
}

/// The writes of a change set are those of its first part followed by those
/// of the rest: a region's write does not depend on the other regions, and
/// the order of the regions is kept.
pub proof fn lemma_writes_for_concat(first: Seq<SSMChangeView>, rest: Seq<SSMChangeView>)
    ensures
        writes_for(first + rest) == writes_for(first) + writes_for(rest),
    decreases rest.len(),
{
    if rest.len() == 0 {
        assert(first + rest =~= first);
        assert(writes_for(first) + writes_for(rest) =~= writes_for(first));
    } else {
        assert((first + rest).drop_last() =~= first + rest.drop_last());
        assert((first + rest).last() == rest.last());
        lemma_writes_for_concat(first, rest.drop_last());
        match rest.last().write() {
            Some(write) => {
                assert((writes_for(first) + writes_for(rest.drop_last())).push(write)
                    =~= writes_for(first) + writes_for(rest.drop_last()).push(write));
            },
            None => {},
        }
    }
}

/// A change set in which nothing changes writes nothing.
pub proof fn lemma_no_action_writes_nothing(changes: Seq<SSMChangeView>)
    requires
        forall|i: int| 0 <= i < changes.len() ==> (#[trigger] changes[i]).action == Action::NoAction,
    ensures
        writes_for(changes).len() == 0,
    decreases changes.len(),
{
    if changes.len() > 0 {
        lemma_no_action_writes_nothing(changes.drop_last());
    }
}

/// Every write of a change set is the write of one of its changes: of an
/// update, and then it has no type, or of a creation, and then it has the type
/// of that change. No write comes from a change that changes nothing.
pub proof fn lemma_writes_come_from_changes(changes: Seq<SSMChangeView>, k: int)
    requires
        0 <= k < writes_for(changes).len(),
    ensures
        exists|i: int|
            0 <= i < changes.len() && is_write_of(writes_for(changes)[k], #[trigger] changes[i]),
    decreases changes.len(),
{
    let before = writes_for(changes.drop_last());
    if k < before.len() {
        lemma_writes_come_from_changes(changes.drop_last(), k);
        let i = choose|i: int|
            0 <= i < changes.drop_last().len() && is_write_of(
                before[k],
                #[trigger] changes.drop_last()[i],
            );
        assert(changes[i] == changes.drop_last()[i]);
        assert(is_write_of(writes_for(changes)[k], changes[i]));
    } else {
        assert(changes[changes.len() - 1] == changes.last());
        assert(is_write_of(writes_for(changes)[k], changes[changes.len() - 1]));
    }
}

} // verus!
