//! What holds of the directories and handles over any number of steps.
use super::property::PropertyReply;
use super::{
    can_open, listing, lookup, opens, product_lookup, AtomList, DeviceInfo, DeviceList, DeviceView,
    DevicesView, PropertiesView,
};
use crate::native::{Atom, Step};
use vstd::prelude::*;

verus! {

/// A run of the iteration over devices: one step for each reply, in their
/// order, whatever the replies are. The result is the handles that the steps
/// yielded, in the order in which they came, and the directory as the last
/// step left it.
pub open spec fn run(start: DevicesView, replies: Seq<Option<usize>>) -> (
    Seq<DeviceView>,
    DevicesView,
)
    decreases replies.len(),
{
    if replies.len() == 0 {
        (Seq::empty(), start)
    } else {
        let (step, after) = start.next(replies[0]);
        let (handles, end) = run(after, replies.drop_first());
        match step {
            Step::Done(Some(device)) => (seq![device] + handles, end),
            _ => (handles, end),
        }
    }
}

/// A run of the iteration over properties: a number of steps. The result is
/// the atoms that the steps yielded, in the order in which they came, and the
/// directory as the last step left it.
pub open spec fn drain(start: PropertiesView, steps: nat) -> (Seq<Atom>, PropertiesView)
    decreases steps,
{
    if steps == 0 {
        (Seq::empty(), start)
    } else {
        let (atom, after) = start.next();
        let (atoms, end) = drain(after, (steps - 1) as nat);
        match atom {
            Some(atom) => (seq![atom] + atoms, end),
            None => (atoms, end),
        }
    }
}

/// Every run over a directory of devices yields handles on the records that
/// were still to come, one each, in the array's order, and none on any other
/// record. A run that reaches the end has yielded a handle on every record
/// that was still to come: from a fresh directory, exactly as many as the
/// array has records. The session and the array stay the directory's own.
pub proof fn law_devices_in_array_order(start: DevicesView, replies: Seq<Option<usize>>)
    requires
        start.wf(),
    ensures
        ({
            let (handles, end) = run(start, replies);
            &&& end.wf()
            &&& end.display == start.display
            &&& end.list == start.list
            &&& end.records == start.records
            &&& end.consumed == start.consumed + handles.len()
            &&& forall|k: int|
                0 <= k < handles.len() ==> {
                    &&& (#[trigger] handles[k]).wf()
                    &&& handles[k].display == start.display
                    &&& handles[k].info == start.records[start.consumed + k]
                }
            &&& end.remaining() == 0 ==> handles.len() == start.remaining()
        }),
    decreases replies.len(),
{
    if replies.len() > 0 {
        let (step, after) = start.next(replies[0]);
        law_devices_in_array_order(after, replies.drop_first());
        let (rest, end) = run(after, replies.drop_first());
        let (handles, _) = run(start, replies);
        match step {
            Step::Done(Some(device)) => {
                assert(handles == seq![device] + rest);
                assert forall|k: int| 0 <= k < handles.len() implies {
                    &&& (#[trigger] handles[k]).wf()
                    &&& handles[k].display == start.display
                    &&& handles[k].info == start.records[start.consumed + k]
                } by {
                    if k > 0 {
                        assert(handles[k] == rest[k - 1]);
                    }
                }
            },
            _ => {},
        }
    }
}

/// At every point of a run over a directory of devices, the number of
/// handles still to come is the number that was to come at the start less
/// the number yielded since: from a fresh directory, the number of records
/// less the number consumed.
pub proof fn law_remaining_counts_down(start: DevicesView, replies: Seq<Option<usize>>)
    requires
        start.wf(),
    ensures
        run(start, replies).1.remaining() == start.remaining() - run(start, replies).0.len(),
        start.consumed == 0 ==> run(start, replies).1.remaining() == start.records.len() - run(
            start,
            replies,
        ).0.len(),
{
    law_devices_in_array_order(start, replies);
}

/// The call that a directory of devices owes when it is given up is the same
/// after every run: the array is freed once, by that call, whether the run
/// reached the end or not.
pub proof fn law_release_after_any_run(start: DevicesView, replies: Seq<Option<usize>>)
    requires
        start.wf(),
    ensures
        run(start, replies).1.release() == start.release(),
{
    law_devices_in_array_order(start, replies);
}

/// Every run over a directory of properties yields the atoms that were still
/// to come, in the array's order, as far as its steps reach, and the number
/// still to come goes down by the number yielded. The array stays the
/// directory's own, and so does the call that it owes.
pub proof fn law_atoms_in_array_order(start: PropertiesView, steps: nat)
    requires
        start.wf(),
    ensures
        ({
            let (atoms, end) = drain(start, steps);
            &&& end.wf()
            &&& end.atoms == start.atoms
            &&& end.release() == start.release()
            &&& end.consumed == start.consumed + atoms.len()
            &&& atoms.len() == if steps <= start.remaining() {
                steps
            } else {
                start.remaining()
            }
            &&& atoms == start.atoms.subrange(
                start.consumed as int,
                (start.consumed + atoms.len()) as int,
            )
            &&& end.remaining() == start.remaining() - atoms.len()
        }),
    decreases steps,
{
    if steps > 0 {
        let (atom, after) = start.next();
        law_atoms_in_array_order(after, (steps - 1) as nat);
        let (rest, _) = drain(after, (steps - 1) as nat);
        let (atoms, _) = drain(start, steps);
        match atom {
            Some(atom) => {
                assert(atoms == seq![atom] + rest);
                assert(atoms =~= start.atoms.subrange(
                    start.consumed as int,
                    (start.consumed + atoms.len()) as int,
                ));
            },
            None => {
                assert(atoms =~= start.atoms.subrange(
                    start.consumed as int,
                    (start.consumed + atoms.len()) as int,
                ));
            },
        }
    } else {
        assert(drain(start, steps).0 =~= start.atoms.subrange(
            start.consumed as int,
            start.consumed as int,
        ));
    }
}

/// A step that is given the answer to every call that it may ask for asks
/// for none: a handle is made after one call at most, a directory is listed
/// after one, and a property is looked up after two.
pub proof fn law_answered_steps_are_done(
    device: DeviceView,
    info: DeviceInfo,
    name: &str,
    opened: usize,
    devices: DeviceList,
    atoms: AtomList,
    atom: Atom,
    reply: &PropertyReply,
)
    ensures
        opens(device.display, info, Some(opened)) is Done,
        DevicesView::list(device.display, Some(devices)) is Done,
        listing(device, Some(atoms)) is Done,
        lookup(device, name, Some(atom), Some(reply)) is Done,
        product_lookup(device, Some(atom), Some(reply)) is Done,
{
}

/// A device of a use that is not opened has the empty directory of
/// properties, whatever is handed in as listed: it yields no atom on any run,
/// and owes no call when it is given up.
pub proof fn law_unopened_lists_nothing(device: DeviceView, listed: Option<AtomList>, steps: nat)
    requires
        device.wf(),
        !can_open(device.info.use_),
    ensures
        listing(device, listed) == Step::<PropertiesView>::Done(PropertiesView::empty()),
        drain(PropertiesView::empty(), steps).0.len() == 0,
        drain(PropertiesView::empty(), steps).1.release() is None,
        PropertiesView::empty().release() is None,
{
    law_atoms_in_array_order(PropertiesView::empty(), steps);
}

} // verus!
