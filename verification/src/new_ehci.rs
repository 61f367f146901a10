//! Telling apart controllers that the BIOS may own from those it does not.
use vstd::prelude::*;

use crate::bitfield::get_field;
use crate::capability_regs::HccParams;
use crate::extended_capabilities::{
    capability_step, nonzero_offset, CapabilityInfo, ExtendedCapabilitiesIterator,
    ExtendedCapability,
};
use crate::pci::{read_access, ConfigAccess, PciAccess};
use crate::usb_leg_sup::BiosOwnedEhci;

verus! {

/// A controller as found: either the BIOS may own it, or the operating system
/// owns it already (the value held is the mapping of its registers).
pub enum AnyEhci<P: PciAccess, B> {
    BiosOwned(BiosOwnedEhci<P, B>),
    OsOwned(B),
}

impl<P: PciAccess, B> AnyEhci<P, B> {
    /// The controller mapped at `mapped_bar`. When its chain of extended
    /// capabilities holds a legacy support capability, at
    /// `usb_leg_sup_offset`, the BIOS may own it; otherwise the operating
    /// system does.
    pub fn new(mapped_bar: B, pci_access: P, usb_leg_sup_offset: Option<u8>) -> (r: Self)
        requires
            usb_leg_sup_offset matches Some(o) ==> o != 0,
        ensures
            usb_leg_sup_offset is None ==> r == AnyEhci::<P, B>::OsOwned(mapped_bar),
            usb_leg_sup_offset is Some ==> (r matches AnyEhci::BiosOwned(b) && b.bar() == mapped_bar
                && b.pci() == pci_access && b.offset_spec() == usb_leg_sup_offset->Some_0),
    {
        match usb_leg_sup_offset {
            Some(offset) => AnyEhci::BiosOwned(BiosOwnedEhci::new(mapped_bar, pci_access, offset)),
            None => AnyEhci::OsOwned(mapped_bar),
        }
    }
}

/// The most capabilities that the search for the legacy support capability
/// reads. There are only 255 places for a capability, so a chain that is
/// longer has come back to a capability it already passed.
pub const MAX_CAPABILITY_READS: u16 = 256;

/// The capability read at `read.0` whose first dword was `read.1`.
pub open spec fn read_capability(read: (u8, u32)) -> CapabilityInfo {
    capability_step(read.0, read.1).0
}

/// Where the walk that starts at `start` and reads `reads` goes after its
/// first `i` reads.
pub open spec fn walk_position(start: Option<u8>, reads: Seq<(u8, u32)>, i: int) -> Option<u8> {
    if i == 0 {
        start
    } else {
        capability_step(reads[i - 1].0, reads[i - 1].1).1
    }
}

/// `reads` (the offset and the first dword of each capability, in order) is a
/// walk along the chain of capabilities from `start` that stops at `end`.
pub open spec fn chain_walk(start: Option<u8>, reads: Seq<(u8, u32)>, end: Option<u8>) -> bool {
    &&& forall|i: int| 0 <= i < reads.len() ==> walk_position(start, reads, i) == Some(#[trigger] reads[i].0)
    &&& walk_position(start, reads, reads.len() as int) == end
}

/// The accesses to PCI configuration space that make the reads `reads`.
pub open spec fn read_accesses(reads: Seq<(u8, u32)>) -> Seq<ConfigAccess> {
    reads.map_values(|read: (u8, u32)| read_access(read.0, read.1))
}

/// The search for the legacy support capability that read `reads` along the
/// chain from `start`, stopped at `end` and answered `r`: the offset of the
/// first legacy support capability, which is the last one read; or `None`
/// when there is none before the end of the chain, or before the walk came
/// back to a capability it had already read.
pub open spec fn usb_leg_sup_search(
    start: Option<u8>,
    reads: Seq<(u8, u32)>,
    end: Option<u8>,
    r: Option<u8>,
) -> bool {
    let usb_leg_sup = ExtendedCapability::UsbLegSup.id_spec();
    &&& chain_walk(start, reads, end)
    &&& match r {
        Some(offset) => {
            &&& reads.len() > 0
            &&& read_capability(reads.last()).id == usb_leg_sup
            &&& offset == reads.last().0
            &&& forall|i: int| 0 <= i < reads.len() - 1 ==> #[trigger] read_capability(reads[i]).id != usb_leg_sup
        },
        None => {
            &&& forall|i: int| 0 <= i < reads.len() ==> #[trigger] read_capability(reads[i]).id != usb_leg_sup
            &&& end is None || exists|i: int, j: int|
                0 <= i < j < reads.len() && #[trigger] reads[i].0 == #[trigger] reads[j].0
        },
    }
}

/// Where the chain of capabilities of the configuration space `cfg` (the
/// dword at each offset) is after `i` steps from `start`.
pub open spec fn chain_offset(cfg: spec_fn(u8) -> u32, start: Option<u8>, i: nat) -> Option<u8>
    decreases i,
{
    if i == 0 {
        start
    } else {
        match chain_offset(cfg, start, (i - 1) as nat) {
            Some(offset) => capability_step(offset, cfg(offset)).1,
            None => None,
        }
    }
}

/// The capability `i` steps along the chain of `cfg` from `start` is the
/// legacy support capability.
pub open spec fn usb_leg_sup_at(cfg: spec_fn(u8) -> u32, start: Option<u8>, i: nat) -> bool {
    chain_offset(cfg, start, i) matches Some(offset) && capability_step(offset, cfg(offset)).0.id
        == ExtendedCapability::UsbLegSup.id_spec()
}

/// A walk whose reads gave what `cfg` holds goes where the chain of `cfg` goes.
proof fn lemma_walk_follows_chain(
    cfg: spec_fn(u8) -> u32,
    start: Option<u8>,
    reads: Seq<(u8, u32)>,
    end: Option<u8>,
    i: nat,
)
    requires
        chain_walk(start, reads, end),
        forall|k: int| 0 <= k < reads.len() ==> #[trigger] reads[k].1 == cfg(reads[k].0),
        i <= reads.len(),
    ensures
        chain_offset(cfg, start, i) == walk_position(start, reads, i as int),
    decreases i,
{
    if i > 0 {
        lemma_walk_follows_chain(cfg, start, reads, end, (i - 1) as nat);
        assert(walk_position(start, reads, i - 1) == Some(reads[i - 1].0));
    }
}

/// Once two places of a chain meet, the chain goes on alike from both.
proof fn lemma_chain_repeats(cfg: spec_fn(u8) -> u32, start: Option<u8>, i: nat, j: nat, m: nat)
    requires
        chain_offset(cfg, start, i) == chain_offset(cfg, start, j),
    ensures
        chain_offset(cfg, start, i + m) == chain_offset(cfg, start, j + m),
    decreases m,
{
    if m > 0 {
        lemma_chain_repeats(cfg, start, i, j, (m - 1) as nat);
        assert(chain_offset(cfg, start, i + m) == match chain_offset(cfg, start, (i + m - 1) as nat) {
            Some(offset) => capability_step(offset, cfg(offset)).1,
            None => None,
        });
        assert(chain_offset(cfg, start, j + m) == match chain_offset(cfg, start, (j + m - 1) as nat) {
            Some(offset) => capability_step(offset, cfg(offset)).1,
            None => None,
        });
    }
}

/// When the configuration space reads the same each time, as `cfg`, and its
/// chain of capabilities from `start` ends after `len` capabilities, the
/// search answers the offset of the first legacy support capability along
/// the chain, and `None` exactly when the chain holds none.
pub proof fn lemma_search_finds_first_usb_leg_sup(
    cfg: spec_fn(u8) -> u32,
    start: Option<u8>,
    len: nat,
    reads: Seq<(u8, u32)>,
    end: Option<u8>,
    r: Option<u8>,
)
    requires
        usb_leg_sup_search(start, reads, end, r),
        forall|k: int| 0 <= k < reads.len() ==> #[trigger] reads[k].1 == cfg(reads[k].0),
        forall|i: nat| i < len ==> #[trigger] chain_offset(cfg, start, i) is Some,
        chain_offset(cfg, start, len) is None,
    ensures
        r is None <==> forall|i: nat| i < len ==> !#[trigger] usb_leg_sup_at(cfg, start, i),
        r matches Some(offset) ==> exists|j: nat|
            {
                &&& j < len
                &&& chain_offset(cfg, start, j) == Some(offset)
                &&& #[trigger] usb_leg_sup_at(cfg, start, j)
                &&& forall|i: nat| i < j ==> !#[trigger] usb_leg_sup_at(cfg, start, i)
            },
{
    let n = reads.len();
    assert forall|i: nat| i <= n implies #[trigger] chain_offset(cfg, start, i) == walk_position(
        start,
        reads,
        i as int,
    ) by {
        lemma_walk_follows_chain(cfg, start, reads, end, i);
    }
    // The walk reads capabilities of the chain only, so no more than `len`.
    if n > len {
        assert(chain_offset(cfg, start, len) == walk_position(start, reads, len as int));
        assert(walk_position(start, reads, len as int) == Some(reads[len as int].0));
    }
    assert(n <= len);
    assert forall|k: int| 0 <= k < n implies (usb_leg_sup_at(cfg, start, k as nat)
        <==> read_capability(#[trigger] reads[k]).id == ExtendedCapability::UsbLegSup.id_spec()) by {
        assert(chain_offset(cfg, start, k as nat) == walk_position(start, reads, k));
    }
    match r {
        None => {
            // The chain of a space that reads the same each time does not come
            // back to a capability before its end.
            if exists|i: int, j: int| 0 <= i < j < n && #[trigger] reads[i].0 == #[trigger] reads[j].0 {
                let (i, j) = choose|i: int, j: int|
                    0 <= i < j < n && #[trigger] reads[i].0 == #[trigger] reads[j].0;
                assert(chain_offset(cfg, start, i as nat) == walk_position(start, reads, i));
                assert(chain_offset(cfg, start, j as nat) == walk_position(start, reads, j));
                lemma_chain_repeats(cfg, start, i as nat, j as nat, (len - j) as nat);
                assert(chain_offset(cfg, start, (i + len - j) as nat) is Some);
                assert(false);
            }
            assert(end is None);
            assert(chain_offset(cfg, start, n) == end);
            assert(n == len);
            assert forall|i: nat| i < len implies !#[trigger] usb_leg_sup_at(cfg, start, i) by {
                assert(read_capability(reads[i as int]).id != ExtendedCapability::UsbLegSup.id_spec());
            }
        },
        Some(offset) => {
            let j = (n - 1) as nat;
            assert(read_capability(reads[j as int]).id == ExtendedCapability::UsbLegSup.id_spec());
            assert(usb_leg_sup_at(cfg, start, j));
            assert(chain_offset(cfg, start, j) == walk_position(start, reads, j as int));
            assert forall|i: nat| i < j implies !#[trigger] usb_leg_sup_at(cfg, start, i) by {
                assert(read_capability(reads[i as int]).id != ExtendedCapability::UsbLegSup.id_spec());
            }
        },
    }
}

/// Among `MAX_CAPABILITY_READS` nonzero offsets, one comes twice.
proof fn lemma_offsets_repeat(reads: Seq<(u8, u32)>)
    requires
        reads.len() == MAX_CAPABILITY_READS,
        forall|i: int| 0 <= i < reads.len() ==> #[trigger] reads[i].0 != 0,
    ensures
        exists|i: int, j: int| 0 <= i < j < reads.len() && #[trigger] reads[i].0 == #[trigger] reads[j].0,
{
    let offsets = reads.map_values(|read: (u8, u32)| read.0 as int);
    if !(exists|i: int, j: int| 0 <= i < j < reads.len() && #[trigger] reads[i].0 == #[trigger] reads[j].0) {
        assert(offsets.no_duplicates()) by {
            assert forall|i: int, j: int| 0 <= i < offsets.len() && 0 <= j < offsets.len() && i != j implies offsets[i] != offsets[j] by {
                if i < j {
                    assert(!(reads[i].0 == reads[j].0));
                } else {
                    assert(!(reads[j].0 == reads[i].0));
                }
            }
        }
        offsets.unique_seq_to_set();
        vstd::set_lib::lemma_int_range(1, 256);
        assert(offsets.to_set().subset_of(vstd::set_lib::set_int_range(1, 256))) by {
            assert forall|x: int| offsets.to_set().contains(x) implies vstd::set_lib::set_int_range(1, 256).contains(x) by {
                let k = choose|k: int| 0 <= k < offsets.len() && offsets[k] == x;
                assert(reads[k].0 != 0);
            }
        }
        vstd::set_lib::lemma_len_subset(offsets.to_set(), vstd::set_lib::set_int_range(1, 256));
    }
}

/// Walks the chain of extended capabilities until the legacy support
/// capability and answers its offset; `None` when the chain ends without it.
/// A chain that comes back to a capability it has already passed never ends:
/// the walk gives up after `MAX_CAPABILITY_READS` reads.
pub fn find_usb_leg_sup<P: PciAccess>(it: &mut ExtendedCapabilitiesIterator<P>) -> (r: Option<u8>)
    ensures
        r matches Some(offset) ==> offset != 0,
        exists|reads: Seq<(u8, u32)>|
            {
                &&& #[trigger] usb_leg_sup_search(old(it).pointer(), reads, final(it).pointer(), r)
                &&& final(it).pci().accesses() == old(it).pci().accesses() + read_accesses(reads)
            },
{
    let ghost start = it.pointer();
    let ghost accesses = it.pci().accesses();
    let ghost mut reads: Seq<(u8, u32)> = Seq::empty();
    let mut n: u16 = 0;
    assert(read_accesses(reads) =~= Seq::<ConfigAccess>::empty());
    while n < MAX_CAPABILITY_READS
        invariant
            start == old(it).pointer(),
            accesses == old(it).pci().accesses(),
            n == reads.len(),
            n <= MAX_CAPABILITY_READS,
            chain_walk(start, reads, it.pointer()),
            it.pci().accesses() == accesses + read_accesses(reads),
            forall|i: int| 0 <= i < reads.len() ==> #[trigger] reads[i].0 != 0,
            forall|i: int| 0 <= i < reads.len() ==> #[trigger] read_capability(reads[i]).id != ExtendedCapability::UsbLegSup.id_spec(),
        decreases MAX_CAPABILITY_READS - n,
    {
        let ghost before = *it;
        match it.next() {
            None => {
                assert(usb_leg_sup_search(start, reads, it.pointer(), None));
                return None;
            },
            Some(info) => {
                let ghost value = choose|value: u32|
                    {
                        &&& it.pci().accesses() == before.pci().accesses().push(
                            read_access(before.pointer()->Some_0, value),
                        )
                        &&& #[trigger] capability_step(before.pointer()->Some_0, value) == (
                            info,
                            it.pointer(),
                        )
                    };
                proof {
                    let old_reads = reads;
                    reads = reads.push((info.offset, value));
                    assert(read_accesses(reads) =~= read_accesses(old_reads).push(
                        read_access(info.offset, value),
                    ));
                    assert(walk_position(start, old_reads, old_reads.len() as int) == before.pointer());
                    assert(chain_walk(start, reads, it.pointer())) by {
                        assert forall|i: int| 0 <= i < reads.len() implies walk_position(start, reads, i) == Some(#[trigger] reads[i].0) by {
                            if i > 0 {
                                assert(reads[i - 1] == old_reads[i - 1]);
                            }
                            if i < old_reads.len() {
                                assert(walk_position(start, old_reads, i) == Some(old_reads[i].0));
                            }
                        }
                    }
                }
                n = n + 1;
                if info.id == ExtendedCapability::UsbLegSup.id() {
                    assert(usb_leg_sup_search(start, reads, it.pointer(), Some(info.offset)));
                    return Some(info.offset);
                }
            },
        }
    }
    proof {
        lemma_offsets_repeat(reads);
    }
    assert(usb_leg_sup_search(start, reads, it.pointer(), None));
    None
}

/// `caps` lists the capabilities that the walk `reads` along the chain from
/// `start` read, in order; the walk stopped at `end`, which is the end of the
/// chain unless the walk came back to a capability it had already read.
pub open spec fn listed_walk(
    start: Option<u8>,
    reads: Seq<(u8, u32)>,
    end: Option<u8>,
    caps: Seq<CapabilityInfo>,
) -> bool {
    &&& chain_walk(start, reads, end)
    &&& caps == reads.map_values(|read: (u8, u32)| read_capability(read))
    &&& end is None || exists|i: int, j: int|
        0 <= i < j < reads.len() && #[trigger] reads[i].0 == #[trigger] reads[j].0
}

/// Walks the chain of extended capabilities to its end and lists them, in
/// order. A chain that comes back to a capability it has already passed never
/// ends: the walk gives up after `MAX_CAPABILITY_READS` reads.
pub fn list_capabilities<P: PciAccess>(it: &mut ExtendedCapabilitiesIterator<P>) -> (r: Vec<
    CapabilityInfo,
>)
    ensures
        exists|reads: Seq<(u8, u32)>|
            {
                &&& #[trigger] listed_walk(old(it).pointer(), reads, final(it).pointer(), r@)
                &&& final(it).pci().accesses() == old(it).pci().accesses() + read_accesses(reads)
            },
{
    let ghost start = it.pointer();
    let ghost accesses = it.pci().accesses();
    let ghost mut reads: Seq<(u8, u32)> = Seq::empty();
    let mut caps: Vec<CapabilityInfo> = Vec::new();
    let mut n: u16 = 0;
    assert(read_accesses(reads) =~= Seq::<ConfigAccess>::empty());
    while n < MAX_CAPABILITY_READS
        invariant
            start == old(it).pointer(),
            accesses == old(it).pci().accesses(),
            n == reads.len(),
            n <= MAX_CAPABILITY_READS,
            chain_walk(start, reads, it.pointer()),
            it.pci().accesses() == accesses + read_accesses(reads),
            forall|i: int| 0 <= i < reads.len() ==> #[trigger] reads[i].0 != 0,
            caps@ == reads.map_values(|read: (u8, u32)| read_capability(read)),
        decreases MAX_CAPABILITY_READS - n,
    {
        let ghost before = *it;
        match it.next() {
            None => {
                assert(listed_walk(start, reads, it.pointer(), caps@));
                return caps;
            },
            Some(info) => {
                let ghost value = choose|value: u32|
                    {
                        &&& it.pci().accesses() == before.pci().accesses().push(
                            read_access(before.pointer()->Some_0, value),
                        )
                        &&& #[trigger] capability_step(before.pointer()->Some_0, value) == (
                            info,
                            it.pointer(),
                        )
                    };
                proof {
                    let old_reads = reads;
                    reads = reads.push((info.offset, value));
                    assert(read_accesses(reads) =~= read_accesses(old_reads).push(
                        read_access(info.offset, value),
                    ));
                    assert(walk_position(start, old_reads, old_reads.len() as int) == before.pointer());
                    assert(chain_walk(start, reads, it.pointer())) by {
                        assert forall|i: int| 0 <= i < reads.len() implies walk_position(start, reads, i) == Some(#[trigger] reads[i].0) by {
                            if i > 0 {
                                assert(reads[i - 1] == old_reads[i - 1]);
                            }
                            if i < old_reads.len() {
                                assert(walk_position(start, old_reads, i) == Some(old_reads[i].0));
                            }
                        }
                    }
                }
                caps.push(info);
                proof {
                    assert(caps@ =~= reads.map_values(|read: (u8, u32)| read_capability(read)));
                }
                n = n + 1;
            },
        }
    }
    proof {
        lemma_offsets_repeat(reads);
    }
    assert(listed_walk(start, reads, it.pointer(), caps@));
    caps
}

/// The offset of the first extended capability that HCCPARAMS gives, if any.
pub open spec fn first_capability(hcc_params: HccParams) -> Option<u8> {
    nonzero_offset(get_field(hcc_params@, 8, 8) as u8)
}

/// The controller mapped at `mapped_bar`, whose HCCPARAMS register reads
/// `hcc_params`, with `pci_access` to its PCI configuration space, and the
/// list of its extended capabilities. The chain of capabilities is walked
/// twice: once to list it, once to find the legacy support capability. When
/// there is one, the BIOS may own the controller; otherwise the operating
/// system does. PCI configuration space is only read.
pub fn new_ehci<P: PciAccess, B>(mapped_bar: B, pci_access: P, hcc_params: HccParams) -> (r: (
    AnyEhci<P, B>,
    Vec<CapabilityInfo>,
))
    ensures
        exists|
            listed: Seq<(u8, u32)>,
            listed_end: Option<u8>,
            searched: Seq<(u8, u32)>,
            searched_end: Option<u8>,
            found: Option<u8>,
        |
            {
                &&& #[trigger] listed_walk(first_capability(hcc_params), listed, listed_end, r.1@)
                &&& #[trigger] usb_leg_sup_search(
                    first_capability(hcc_params),
                    searched,
                    searched_end,
                    found,
                )
                &&& found is None ==> r.0 == AnyEhci::<P, B>::OsOwned(mapped_bar)
                &&& found is Some ==> (r.0 matches AnyEhci::BiosOwned(b) && b.bar() == mapped_bar
                    && b.offset_spec() == found->Some_0 && b.pci().accesses()
                    == pci_access.accesses() + read_accesses(listed) + read_accesses(searched))
            },
{
    let ghost start = first_capability(hcc_params);
    let mut listing = ExtendedCapabilitiesIterator::new(pci_access, hcc_params);
    let ghost listing_start = listing;
    let caps = list_capabilities(&mut listing);
    let ghost listing_end = listing;
    let pci_after_listing = listing.into_pci();
    let mut search = ExtendedCapabilitiesIterator::new(pci_after_listing, hcc_params);
    let ghost search_start = search;
    let found = find_usb_leg_sup(&mut search);
    let ghost search_end = search;
    let pci_after_search = search.into_pci();
    let r = (AnyEhci::new(mapped_bar, pci_after_search, found), caps);
    proof {
        let listed = choose|reads: Seq<(u8, u32)>|
            {
                &&& #[trigger] listed_walk(listing_start.pointer(), reads, listing_end.pointer(), caps@)
                &&& listing_end.pci().accesses() == listing_start.pci().accesses() + read_accesses(reads)
            };
        let searched = choose|reads: Seq<(u8, u32)>|
            {
                &&& #[trigger] usb_leg_sup_search(search_start.pointer(), reads, search_end.pointer(), found)
                &&& search_end.pci().accesses() == search_start.pci().accesses() + read_accesses(reads)
            };
        assert(listed_walk(start, listed, listing_end.pointer(), r.1@));
        assert(usb_leg_sup_search(start, searched, search_end.pointer(), found));
    }
    r
}
} // verus!
