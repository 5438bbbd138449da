//! What is found on the USB bus, said of the descriptors' bytes.
use crate::xhci::{HidKind, Interface, Parsed};
use vstd::prelude::*;

verus! {

/// Where the `k`th record of a configuration begins: each follows the one
/// before it by that one's length byte.
pub open spec fn record(b: Seq<u8>, k: nat) -> int
    decreases k,
{
    if k == 0 {
        0
    } else {
        record(b, (k - 1) as nat) + b[record(b, (k - 1) as nat)]
    }
}

/// Whether the records up to and including the `k`th lie wholly inside the
/// descriptor, each with room for its length and its type.
pub open spec fn whole(b: Seq<u8>, k: nat) -> bool {
    forall|j: nat|
        j <= k ==> {
            let at = #[trigger] record(b, j);
            at + 2 <= b.len() && b[at] >= 2 && at + b[at] <= b.len()
        }
}

/// Whether the `k`th record is an interface.
pub open spec fn is_interface(b: Seq<u8>, k: nat) -> bool {
    b[record(b, k) + 1] == 4 && b[record(b, k)] >= 9
}

/// Whether the `k`th record is an endpoint that the device sends on by
/// interrupt: type 5, transfer type 3 in the low two attribute bits, and the
/// top address bit for the direction.
pub open spec fn is_interrupt_in(b: Seq<u8>, k: nat) -> bool {
    let at = record(b, k);
    b[at + 1] == 5 && b[at] >= 7 && b[at + 3] % 4 == 3 && b[at + 2] / 0x80 == 1
}

/// Whether the `k`th record belongs to the interface at record `i`, which is
/// of the HID class: no other interface stands between them.
pub open spec fn belongs(b: Seq<u8>, i: nat, k: nat) -> bool {
    &&& i < k
    &&& is_interface(b, i)
    &&& b[record(b, i) + 5] == 3
    &&& forall|j: nat| i < j < k ==> !#[trigger] is_interface(b, j)
}

/// Whether the `k`th record is an interrupt IN endpoint of some HID interface.
pub open spec fn is_hid_endpoint(b: Seq<u8>, k: nat) -> bool {
    is_interrupt_in(b, k) && exists|i: nat| #[trigger] belongs(b, i, k)
}

/// The interface that a walk is inside of before the `k`th record.
spec fn inside(b: Seq<u8>, k: nat) -> Option<Interface>
    decreases k,
{
    if k == 0 {
        None
    } else {
        crate::xhci::inside_interface(b, record(b, (k - 1) as nat), inside(b, (k - 1) as nat))
    }
}

proof fn lemma_inside(b: Seq<u8>, k: nat)
    ensures
        inside(b, k) is Some <==> exists|i: nat| #[trigger] belongs(b, i, k),
        forall|i: nat|
            #[trigger] belongs(b, i, k) ==> inside(b, k) == Some(
                Interface {
                    number: b[record(b, i) + 2],
                    kind: HidKind::of_protocol(b[record(b, i) + 7]),
                },
            ),
    decreases k,
{
    if k > 0 {
        let p = (k - 1) as nat;
        lemma_inside(b, p);
        if is_interface(b, p) {
            if b[record(b, p) + 5] == 3 {
                assert(belongs(b, p, k));
            }
            assert forall|i: nat| #[trigger] belongs(b, i, k) implies i == p by {
                if i != p {
                    assert(i < p < k);
                    assert(is_interface(b, p));
                }
            }
        } else {
            assert forall|i: nat| #[trigger] belongs(b, i, k) implies belongs(b, i, p) by {
                assert(i != p);
                assert forall|j: nat| i < j < p implies !#[trigger] is_interface(b, j) by {
                    assert(i < j < k);
                }
            }
            if inside(b, p) is Some {
                let i = choose|i: nat| #[trigger] belongs(b, i, p);
                assert forall|j: nat| i < j < k implies !#[trigger] is_interface(b, j) by {
                    if j != p {
                        assert(i < j < p);
                    }
                }
                assert(belongs(b, i, k));
            }
        }
    }
}

proof fn lemma_high_bit(n: u8)
    ensures
        n / 0x80 == 1 <==> n >= 0x80,
{
}

proof fn lemma_walk(b: Seq<u8>, k: nat, e: nat, configuration: u8)
    requires
        k <= e,
        whole(b, e),
        is_hid_endpoint(b, e),
        forall|j: nat| k <= j < e ==> !#[trigger] is_hid_endpoint(b, j),
    ensures
        ({
            let at = record(b, e);
            let within = inside(b, e)->0;
            inside(b, e) is Some && crate::xhci::endpoint_from(
                b,
                record(b, k),
                inside(b, k),
                configuration,
            ) == Some(
                Parsed {
                    configuration,
                    interface: within.number,
                    endpoint: b[at + 2],
                    max_packet: ((b[at + 4] + 0x100 * b[at + 5]) % 0x800) as u16,
                    kind: within.kind,
                },
            )
        }),
    decreases e - k,
{
    let at = record(b, k);
    assert(at + 2 <= b.len() && b[at] >= 2 && at + b[at] <= b.len());
    lemma_inside(b, k);
    lemma_high_bit(b[at + 2]);
    if k == e {
        let i = choose|i: nat| #[trigger] belongs(b, i, e);
        assert(inside(b, e) is Some);
        assert(crate::xhci::is_interrupt_in(b, at));
    } else {
        assert(!is_hid_endpoint(b, k));
        assert(record(b, (k + 1) as nat) == at + b[at]);
        assert(inside(b, (k + 1) as nat) == crate::xhci::inside_interface(b, at, inside(b, k)));
        lemma_walk(b, (k + 1) as nat, e, configuration);
    }
}

/// The device a configuration declares is the one of its first interrupt IN
/// endpoint inside a HID interface, and that interface's protocol byte says
/// what it is: 1 a keyboard, 2 a pointer, anything else neither. The number
/// of the interface, the address of the endpoint and the eleven bits of its
/// packet size are the descriptor's own.
pub proof fn the_protocol_byte_decides(b: Seq<u8>, i: nat, e: nat)
    requires
        b.len() >= 9,
        b[1] == 2,
        whole(b, e),
        belongs(b, i, e),
        is_interrupt_in(b, e),
        forall|j: nat| j < e ==> !#[trigger] is_hid_endpoint(b, j),
    ensures
        crate::xhci::hid_endpoint(b) matches Some(found) && {
            &&& found.kind is Keyboard <==> b[record(b, i) + 7] == 1
            &&& found.kind is Pointer <==> b[record(b, i) + 7] == 2
            &&& found.kind is Other <==> b[record(b, i) + 7] != 1 && b[record(b, i) + 7] != 2
            &&& found.interface == b[record(b, i) + 2]
            &&& found.endpoint == b[record(b, e) + 2]
            &&& found.max_packet == (b[record(b, e) + 4] + 256 * b[record(b, e) + 5]) % 2048
            &&& found.configuration == b[5]
        },
{
    assert(is_hid_endpoint(b, e));
    lemma_walk(b, 0, e, b[5]);
    lemma_inside(b, e);
}

/// A configuration without such an endpoint declares no device: where the
/// records are not a configuration's, and where none of them, up to the first
/// that does not lie inside the descriptor, is one.
pub proof fn without_an_endpoint_there_is_no_device(b: Seq<u8>, n: nat)
    requires
        b.len() < 9 || b[1] != 2 || {
            &&& forall|j: nat| j < n ==> !#[trigger] is_hid_endpoint(b, j)
            &&& n > 0 ==> whole(b, (n - 1) as nat)
            &&& !({
                let at = record(b, n);
                at + 2 <= b.len() && b[at] >= 2 && at + b[at] <= b.len()
            })
        },
    ensures
        crate::xhci::hid_endpoint(b) is None,
{
    if b.len() >= 9 && b[1] == 2 {
        lemma_none(b, 0, n, b[5]);
    }
}

proof fn lemma_none(b: Seq<u8>, k: nat, n: nat, configuration: u8)
    requires
        k <= n,
        forall|j: nat| j < n ==> !#[trigger] is_hid_endpoint(b, j),
        n > 0 ==> whole(b, (n - 1) as nat),
        !({
            let at = record(b, n);
            at + 2 <= b.len() && b[at] >= 2 && at + b[at] <= b.len()
        }),
    ensures
        crate::xhci::endpoint_from(b, record(b, k), inside(b, k), configuration) is None,
    decreases n - k,
{
    if k < n {
        let at = record(b, k);
        assert(at + 2 <= b.len() && b[at] >= 2 && at + b[at] <= b.len());
        lemma_inside(b, k);
        lemma_high_bit(b[at + 2]);
        assert(!is_hid_endpoint(b, k));
        assert(record(b, (k + 1) as nat) == at + b[at]);
        assert(inside(b, (k + 1) as nat) == crate::xhci::inside_interface(b, at, inside(b, k)));
        lemma_none(b, (k + 1) as nat, n, configuration);
    }
}

} // verus!
