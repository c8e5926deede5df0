//! Finding the unit among the serial devices of the host.
//!
//! The caller lists the entries of the serial-device class with the product
//! name that each one reports. The choice among them is made here.

use crate::config::AUTO_PORT;
use crate::text::{contains, has_substring, same_text, starts_with, trim, trimmed};
use vstd::prelude::*;
use vstd::string::*;

verus! {

/// The product name that the unit reports.
pub const EXACT_MARKER: &'static str = "Web3_Pi_UPS";

/// What the product name of a unit with older firmware contains.
pub const LEGACY_MARKER: &'static str = "Pico";

/// How the names of the serial devices that can be the unit begin.
pub const DEVICE_PREFIX: &'static str = "ttyACM";

/// The directory of the device files, with the slash after it.
pub const DEVICE_DIRECTORY: &'static str = "/dev/";

/// The directory that lists the serial-device class.
pub const TTY_CLASS_DIRECTORY: &'static str = "/sys/class/tty";

/// Where, below its entry in the class directory, a device reports its
/// product name.
pub const PRODUCT_FILE: &'static str = "device/../product";

/// One entry of the serial-device class: its name and the product name that
/// the device reports, if one could be read.
#[derive(Clone, Debug)]
pub struct TtyEntry {
    pub name: String,
    pub product: Option<String>,
}

/// No serial device can be the unit.
#[derive(Clone, Copy, Debug, PartialEq, Eq, Structural)]
pub struct DeviceNotFound;

/// Whether an entry can be the unit at all.
pub open spec fn is_candidate(entry: TtyEntry) -> bool {
    DEVICE_PREFIX@.is_prefix_of(entry.name@)
}

/// Whether an entry reports the unit's own product name.
pub open spec fn has_exact_marker(entry: TtyEntry) -> bool {
    &&& is_candidate(entry)
    &&& entry.product matches Some(product)
    &&& trimmed(product@) == EXACT_MARKER@
}

/// Whether an entry reports a product name of the older firmware.
pub open spec fn has_legacy_marker(entry: TtyEntry) -> bool {
    &&& is_candidate(entry)
    &&& entry.product matches Some(product)
    &&& has_substring(trimmed(product@), LEGACY_MARKER@)
}

/// Whether some entry has the exact marker.
pub open spec fn any_exact(entries: Seq<TtyEntry>) -> bool {
    exists|i: int| 0 <= i < entries.len() && has_exact_marker(#[trigger] entries[i])
}

/// Whether some entry has a legacy marker.
pub open spec fn any_legacy(entries: Seq<TtyEntry>) -> bool {
    exists|i: int| 0 <= i < entries.len() && has_legacy_marker(#[trigger] entries[i])
}

/// The index of the last entry with the exact marker.
pub open spec fn last_exact(entries: Seq<TtyEntry>) -> Option<int>
    decreases entries.len(),
{
    if entries.len() == 0 {
        None
    } else if has_exact_marker(entries.last()) {
        Some(entries.len() - 1)
    } else {
        last_exact(entries.drop_last())
    }
}

/// The index of the first entry with a legacy marker.
pub open spec fn first_legacy(entries: Seq<TtyEntry>) -> Option<int>
    decreases entries.len(),
{
    if entries.len() == 0 {
        None
    } else {
        match first_legacy(entries.drop_last()) {
            Some(i) => Some(i),
            None => if has_legacy_marker(entries.last()) {
                Some(entries.len() - 1)
            } else {
                None
            },
        }
    }
}

/// The index of the first entry that can be the unit.
pub open spec fn first_candidate(entries: Seq<TtyEntry>) -> Option<int>
    decreases entries.len(),
{
    if entries.len() == 0 {
        None
    } else {
        match first_candidate(entries.drop_last()) {
            Some(i) => Some(i),
            None => if is_candidate(entries.last()) {
                Some(entries.len() - 1)
            } else {
                None
            },
        }
    }
}

/// The index of the entry taken for the unit: the last one with the exact
/// marker; if there is none, the first with a legacy marker; if there is
/// none either, the first candidate.
pub open spec fn chosen_index(entries: Seq<TtyEntry>) -> Option<int> {
    match last_exact(entries) {
        Some(i) => Some(i),
        None => match first_legacy(entries) {
            Some(i) => Some(i),
            None => first_candidate(entries),
        },
    }
}

/// The path of the device file of the entry called `name`.
pub open spec fn device_path(name: Seq<char>) -> Seq<char> {
    DEVICE_DIRECTORY@ + name
}

/// The path of the device taken for the unit, if there is a candidate.
pub open spec fn detected(entries: Seq<TtyEntry>) -> Option<Seq<char>> {
    match chosen_index(entries) {
        Some(i) => Some(device_path(entries[i].name@)),
        None => None,
    }
}

impl TtyEntry {
    /// Tells whether the entry can be the unit: its name begins with
    /// `ttyACM`.
    pub fn is_candidate(&self) -> (b: bool)
        ensures
            b == is_candidate(*self),
    {
        starts_with(self.name.as_str(), DEVICE_PREFIX)
    }

    /// Tells whether the entry is a candidate whose product name, without the
    /// white space around it, is the unit's own.
    pub fn has_exact_marker(&self) -> (b: bool)
        ensures
            b == has_exact_marker(*self),
    {
        match &self.product {
            Some(product) => self.is_candidate() && same_text(
                trim(product.as_str()),
                EXACT_MARKER,
            ),
            None => false,
        }
    }

    /// Tells whether the entry is a candidate whose product name contains
    /// the legacy marker.
    pub fn has_legacy_marker(&self) -> (b: bool)
        ensures
            b == has_legacy_marker(*self),
    {
        match &self.product {
            Some(product) => self.is_candidate() && contains(
                trim(product.as_str()),
                LEGACY_MARKER,
            ),
            None => false,
        }
    }

    /// The path of the entry's device file.
    pub fn device_path(&self) -> (path: String)
        ensures
            path@ == device_path(self.name@),
    {
        let mut path = DEVICE_DIRECTORY.to_owned();
        path.append(self.name.as_str());
        path
    }
}

/// Picks the device of the unit among the entries of the serial-device class,
/// given in the order in which the host lists them.
///
/// An entry with the exact marker is taken before any other, wherever it
/// stands; of several, the last. Else the first entry with a legacy marker
/// is taken, else the first candidate. Without a candidate there is no
/// device.
pub fn detect_ups_port(entries: &Vec<TtyEntry>) -> (port: Option<String>)
    ensures
        port is Some == detected(entries@) is Some,
        port matches Some(path) ==> detected(entries@) == Some(path@),
{
    let mut exact: Option<usize> = None;
    let mut legacy: Option<usize> = None;
    let mut first: Option<usize> = None;
    let mut i: usize = 0;
    assert(entries@.take(0).len() == 0);
    while i < entries.len()
        invariant
            i <= entries.len(),
            index_view(exact) == last_exact(entries@.take(i as int)),
            index_view(legacy) == first_legacy(entries@.take(i as int)),
            index_view(first) == first_candidate(entries@.take(i as int)),
            exact matches Some(k) ==> k < i,
            legacy matches Some(k) ==> k < i,
            first matches Some(k) ==> k < i,
        decreases entries.len() - i,
    {
        proof {
            let done = entries@.take(i + 1);
            assert(done.drop_last() == entries@.take(i as int));
            assert(done.last() == entries@[i as int]);
        }
        let entry = &entries[i];
        if entry.is_candidate() {
            if first.is_none() {
                first = Some(i);
            }
            if entry.has_exact_marker() {
                exact = Some(i);
            }
            if legacy.is_none() && entry.has_legacy_marker() {
                legacy = Some(i);
            }
        }
        i += 1;
    }
    assert(entries@.take(entries.len() as int) == entries@);
    let chosen = match exact {
        Some(k) => Some(k),
        None => match legacy {
            Some(k) => Some(k),
            None => first,
        },
    };
    match chosen {
        Some(k) => Some(entries[k].device_path()),
        None => None,
    }
}

/// An index as a mathematical integer.
pub open spec fn index_view(index: Option<usize>) -> Option<int> {
    match index {
        Some(k) => Some(k as int),
        None => None,
    }
}

/// The device to open: the configured port, or, where that is `auto`, the
/// device picked among `entries`.
pub fn resolve_port(configured: &str, entries: &Vec<TtyEntry>) -> (port: Result<
    String,
    DeviceNotFound,
>)
    ensures
        match port {
            Ok(path) => if configured@ == AUTO_PORT@ {
                detected(entries@) == Some(path@)
            } else {
                path@ == configured@
            },
            Err(_) => configured@ == AUTO_PORT@ && detected(entries@) is None,
        },
{
    if same_text(configured, AUTO_PORT) {
        match detect_ups_port(entries) {
            Some(path) => Ok(path),
            None => Err(DeviceNotFound),
        }
    } else {
        Ok(configured.to_owned())
    }
}

/// What `last_exact` finds has the exact marker, and nothing after it has.
proof fn lemma_last_exact(entries: Seq<TtyEntry>)
    ensures
        match last_exact(entries) {
            Some(k) => 0 <= k < entries.len() && has_exact_marker(entries[k]) && forall|j: int|
                k < j < entries.len() ==> !has_exact_marker(#[trigger] entries[j]),
            None => forall|j: int|
                0 <= j < entries.len() ==> !has_exact_marker(#[trigger] entries[j]),
        },
    decreases entries.len(),
{
    if entries.len() > 0 {
        let front = entries.drop_last();
        lemma_last_exact(front);
        assert forall|j: int| 0 <= j < front.len() implies front[j] == entries[j] by {}
        if !has_exact_marker(entries.last()) {
            match last_exact(front) {
                Some(k) => {
                    assert forall|j: int| k < j < entries.len() implies !has_exact_marker(
                        #[trigger] entries[j],
                    ) by {
                        if j < front.len() {
                            assert(front[j] == entries[j]);
                        }
                    }
                },
                None => {
                    assert forall|j: int| 0 <= j < entries.len() implies !has_exact_marker(
                        #[trigger] entries[j],
                    ) by {
                        if j < front.len() {
                            assert(front[j] == entries[j]);
                        }
                    }
                },
            }
        }
    }
}

/// What `first_legacy` finds has a legacy marker, and nothing before it has.
proof fn lemma_first_legacy(entries: Seq<TtyEntry>)
    ensures
        match first_legacy(entries) {
            Some(k) => 0 <= k < entries.len() && has_legacy_marker(entries[k]) && forall|j: int|
                0 <= j < k ==> !has_legacy_marker(#[trigger] entries[j]),
            None => forall|j: int|
                0 <= j < entries.len() ==> !has_legacy_marker(#[trigger] entries[j]),
        },
    decreases entries.len(),
{
    if entries.len() > 0 {
        let front = entries.drop_last();
        lemma_first_legacy(front);
        assert forall|j: int| 0 <= j < front.len() implies front[j] == entries[j] by {}
        match first_legacy(front) {
            Some(k) => {
                assert(front[k] == entries[k]);
                assert forall|j: int| 0 <= j < k implies !has_legacy_marker(
                    #[trigger] entries[j],
                ) by {
                    assert(front[j] == entries[j]);
                }
            },
            None => {
                assert forall|j: int| 0 <= j < entries.len() - 1 implies !has_legacy_marker(
                    #[trigger] entries[j],
                ) by {
                    assert(front[j] == entries[j]);
                }
            },
        }
    }
}

/// What `first_candidate` finds is a candidate, and nothing before it is.
proof fn lemma_first_candidate(entries: Seq<TtyEntry>)
    ensures
        match first_candidate(entries) {
            Some(k) => 0 <= k < entries.len() && is_candidate(entries[k]) && forall|j: int|
                0 <= j < k ==> !is_candidate(#[trigger] entries[j]),
            None => forall|j: int| 0 <= j < entries.len() ==> !is_candidate(#[trigger] entries[j]),
        },
    decreases entries.len(),
{
    if entries.len() > 0 {
        let front = entries.drop_last();
        lemma_first_candidate(front);
        assert forall|j: int| 0 <= j < front.len() implies front[j] == entries[j] by {}
        match first_candidate(front) {
            Some(k) => {
                assert(front[k] == entries[k]);
                assert forall|j: int| 0 <= j < k implies !is_candidate(#[trigger] entries[j]) by {
                    assert(front[j] == entries[j]);
                }
            },
            None => {
                assert forall|j: int| 0 <= j < entries.len() - 1 implies !is_candidate(
                    #[trigger] entries[j],
                ) by {
                    assert(front[j] == entries[j]);
                }
            },
        }
    }
}

/// A device is found if and only if some entry is a candidate, and the entry
/// taken is a candidate.
pub proof fn law_found_iff_candidate(entries: Seq<TtyEntry>)
    ensures
        chosen_index(entries) is Some <==> exists|i: int|
            0 <= i < entries.len() && is_candidate(#[trigger] entries[i]),
        chosen_index(entries) matches Some(k) ==> 0 <= k < entries.len() && is_candidate(
            entries[k],
        ),
{
    lemma_last_exact(entries);
    lemma_first_legacy(entries);
    lemma_first_candidate(entries);
}

/// An entry with the exact marker wins wherever it stands: if any entry has
/// the exact marker, the entry taken has it. Else, if any entry has a legacy
/// marker, the entry taken has one.
pub proof fn law_exact_marker_wins(entries: Seq<TtyEntry>)
    ensures
        any_exact(entries) ==> (chosen_index(entries) matches Some(k) && 0 <= k < entries.len()
            && has_exact_marker(entries[k])),
        !any_exact(entries) && any_legacy(entries) ==> (chosen_index(entries) matches Some(k) && 0
            <= k < entries.len() && has_legacy_marker(entries[k])),
{
    lemma_last_exact(entries);
    lemma_first_legacy(entries);
    lemma_first_candidate(entries);
}

/// Where exactly one entry has the exact marker, its device is the one
/// found, whatever the order of the entries.
pub proof fn law_single_exact_marker_is_found(entries: Seq<TtyEntry>, i: int)
    requires
        0 <= i < entries.len(),
        has_exact_marker(entries[i]),
        forall|j: int| 0 <= j < entries.len() && j != i ==> !has_exact_marker(#[trigger] entries[j]),
    ensures
        detected(entries) == Some(device_path(entries[i].name@)),
{
    lemma_last_exact(entries);
}

} // verus!
