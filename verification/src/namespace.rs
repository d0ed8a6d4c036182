//! Namespaces: the partition of the blob address space that a batch is sent to.

use vstd::prelude::*;
use crate::random::{Draw, RandomSource};

verus! {

/// Length in bytes of the user-chosen suffix of a version-zero namespace.
pub const SUFFIX_LEN: usize = 10;

/// Length in bytes of a namespace identifier on the wire: eighteen zero bytes,
/// then the suffix.
pub const ID_LEN: usize = 28;

/// A version-zero namespace, known by the ten bytes that end its identifier.
#[derive(Clone, Copy, Debug, PartialEq, Eq)]
pub struct Namespace {
    pub suffix: [u8; 10],
}

/// The bytes `aaa-test` after two zero bytes.
pub const SUFFIX_AAA: [u8; 10] = [0, 0, 97, 97, 97, 45, 116, 101, 115, 116];

/// The bytes `bbb-test` after two zero bytes.
pub const SUFFIX_BBB: [u8; 10] = [0, 0, 98, 98, 98, 45, 116, 101, 115, 116];

/// The bytes `sov-test` after two zero bytes.
pub const SUFFIX_SOV: [u8; 10] = [0, 0, 115, 111, 118, 45, 116, 101, 115, 116];

/// How many namespaces are configured.
pub const NAMESPACE_COUNT: usize = 3;

/// The configured namespaces, in the order in which a draw selects them.
pub open spec fn configured_namespaces() -> Seq<Namespace> {
    seq![
        (Namespace { suffix: SUFFIX_AAA }),
        (Namespace { suffix: SUFFIX_BBB }),
        (Namespace { suffix: SUFFIX_SOV }),
    ]
}

/// Whether `ns` is one of the configured namespaces.
pub open spec fn is_configured(ns: Namespace) -> bool {
    ns.suffix == SUFFIX_AAA || ns.suffix == SUFFIX_BBB || ns.suffix == SUFFIX_SOV
}

impl Namespace {
    /// The version byte of the namespace: always zero.
    pub open spec fn version(self) -> int {
        0
    }

    /// The identifier as it goes on the wire: `ID_LEN` bytes, zero but for the
    /// suffix at the end.
    pub open spec fn id_bytes(self) -> Seq<u8> {
        Seq::new(
            ID_LEN as nat,
            |i: int|
                if i < ID_LEN - SUFFIX_LEN {
                    0u8
                } else {
                    self.suffix@[i - (ID_LEN - SUFFIX_LEN)]
                },
        )
    }
}

/// The configured namespace that the draw `draw` selects.
pub fn namespace_at(draw: usize) -> (ns: Namespace)
    requires
        draw < NAMESPACE_COUNT,
    ensures
        ns == configured_namespaces()[draw as int],
        is_configured(ns),
{
    if draw == 0 {
        Namespace { suffix: SUFFIX_AAA }
    } else if draw == 1 {
        Namespace { suffix: SUFFIX_BBB }
    } else {
        Namespace { suffix: SUFFIX_SOV }
    }
}

/// The number that selects the configured namespace `ns`.
pub open spec fn namespace_draw_of(ns: Namespace) -> usize {
    if ns.suffix == SUFFIX_AAA {
        0
    } else if ns.suffix == SUFFIX_BBB {
        1
    } else {
        2
    }
}

/// Picks one of the configured namespaces by one draw from the random source:
/// the namespace is the one that the drawn number selects.
pub fn select_namespace(source: &mut RandomSource) -> (ns: Namespace)
    ensures
        is_configured(ns),
        final(source).history() == old(source).history().push(
            Draw::Number { low: 0, high: 2, value: namespace_draw_of(ns) },
        ),
{
    let draw: usize = source.draw_in_range(0, NAMESPACE_COUNT - 1);
    namespace_at(draw)
}

} // verus!
