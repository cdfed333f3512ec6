//! Network interfaces as the operating system reports them, and the lookup of
//! one by name.

use vstd::prelude::*;
use crate::address::MacAddr;
use crate::error::{PipelineError, PipelineErrorView};

verus! {

/// One interface of the machine.
#[derive(Clone, Debug, PartialEq, Eq)]
pub struct NetworkInterface {
    pub name: String,
    /// The hardware address, where the interface has one.
    pub mac: Option<MacAddr>,
    /// Capability and state flags, as the operating system encodes them.
    pub flags: u32,
}

/// A `NetworkInterface` with its name as a sequence of characters.
pub struct InterfaceView {
    pub name: Seq<char>,
    pub mac: Option<MacAddr>,
    pub flags: u32,
}

impl View for NetworkInterface {
    type V = InterfaceView;

    open spec fn view(&self) -> InterfaceView {
        InterfaceView { name: self.name@, mac: self.mac, flags: self.flags }
    }
}

/// Whether `index` is the first position of `names` that holds `wanted`.
pub open spec fn is_first_named(names: Seq<Seq<char>>, wanted: Seq<char>, index: int) -> bool {
    &&& 0 <= index < names.len()
    &&& names[index] == wanted
    &&& forall|j: int| 0 <= j < index ==> names[j] != wanted
}

/// Whether no position of `names` holds `wanted`.
pub open spec fn none_named(names: Seq<Seq<char>>, wanted: Seq<char>) -> bool {
    forall|j: int| 0 <= j < names.len() ==> names[j] != wanted
}

/// The first position of `names` that holds `wanted`, if there is one.
pub open spec fn first_named(names: Seq<Seq<char>>, wanted: Seq<char>) -> Option<int> {
    if exists|i: int| is_first_named(names, wanted, i) {
        Some(choose|i: int| is_first_named(names, wanted, i))
    } else {
        None
    }
}

/// A name that occurs has exactly one first position; one that does not occur
/// has none.
pub proof fn lemma_first_named(names: Seq<Seq<char>>, wanted: Seq<char>, index: int)
    ensures
        is_first_named(names, wanted, index) ==> first_named(names, wanted) == Some(index),
        none_named(names, wanted) ==> first_named(names, wanted) is None,
        first_named(names, wanted) matches Some(i) ==> is_first_named(names, wanted, i),
        first_named(names, wanted) is None ==> none_named(names, wanted),
{
    if is_first_named(names, wanted, index) {
        let other = choose|i: int| is_first_named(names, wanted, i);
        assert(other == index) by {
            if other < index {
                assert(names[other] == wanted);
            } else if index < other {
                assert(names[index] == wanted);
            }
        }
    }
    if first_named(names, wanted) is None && !none_named(names, wanted) {
        lemma_some_first(names, wanted, names.len() as int);
    }
}

/// Among the first `upto` names, either none is `wanted` or one is the first.
proof fn lemma_some_first(names: Seq<Seq<char>>, wanted: Seq<char>, upto: int)
    requires
        0 <= upto <= names.len(),
    ensures
        (forall|j: int| 0 <= j < upto ==> names[j] != wanted) || (exists|i: int|
            is_first_named(names, wanted, i)),
    decreases upto,
{
    if upto > 0 {
        lemma_some_first(names, wanted, upto - 1);
        if (forall|j: int| 0 <= j < upto - 1 ==> names[j] != wanted) && names[upto - 1] == wanted {
            assert(is_first_named(names, wanted, upto - 1));
        }
    }
}

/// The names of the interfaces, in the order reported.
pub open spec fn names_of(interfaces: Seq<NetworkInterface>) -> Seq<Seq<char>> {
    interfaces.map_values(|i: NetworkInterface| i.name@)
}

/// Finds the first interface whose name is exactly `name`; upper and lower
/// case differ. No other interface is ever handed out in its place.
pub fn resolve_interface(interfaces: &[NetworkInterface], name: &str) -> (r: Result<
    usize,
    PipelineError,
>)
    ensures
        match r {
            Ok(index) => is_first_named(names_of(interfaces@), name@, index as int),
            Err(e) => none_named(names_of(interfaces@), name@) && e@
                == (PipelineErrorView::Resolution { name: name@ }),
        },
        r is Ok <==> first_named(names_of(interfaces@), name@) is Some,
        r matches Ok(index) ==> first_named(names_of(interfaces@), name@) == Some(index as int),
{
    proof {
        lemma_first_named(names_of(interfaces@), name@, 0);
    }
    let wanted: String = name.to_owned();
    let mut index: usize = 0;
    while index < interfaces.len()
        invariant
            index <= interfaces@.len(),
            wanted@ == name@,
            forall|j: int| 0 <= j < index ==> names_of(interfaces@)[j] != name@,
        decreases interfaces@.len() - index,
    {
        if interfaces[index].name == wanted {
            proof {
                lemma_first_named(names_of(interfaces@), name@, index as int);
            }
            return Ok(index);
        }
        index += 1;
    }
    Err(PipelineError::Resolution { name: wanted })
}

} // verus!
