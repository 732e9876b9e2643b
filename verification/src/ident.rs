//! Identifiers of attestations and of multi-signature proposals.
//!
//! An identifier spells out what it is derived from: a letter for the kind of
//! record, then the two addresses and the time in hexadecimal digits of fixed
//! width, then the claim type. So the same input always gives the same
//! identifier, and two different inputs never share one.

use crate::address::{Address, AddressKind};
use crate::text::Text;
use crate::types::{Attestation, MultiSigProposal};
use vstd::prelude::*;

verus! {

/// The character of the hexadecimal digit `d`.
pub open spec fn hex_digit(d: nat) -> u8 {
    if d < 10 {
        (0x30 + d) as u8
    } else {
        (0x57 + d) as u8
    }
}

/// The last `width` hexadecimal digits of `n`.
pub open spec fn hex(n: nat, width: nat) -> Seq<u8>
    decreases width,
{
    if width == 0 {
        Seq::empty()
    } else {
        hex(n / 16, (width - 1) as nat).push(hex_digit(n % 16))
    }
}

/// The letter that stands for a kind of address.
pub open spec fn kind_letter(kind: AddressKind) -> u8 {
    match kind {
        AddressKind::Account => 0x47,
        AddressKind::Contract => 0x43,
    }
}

/// An address in sixty-five characters.
pub open spec fn address_code(address: Address) -> Seq<u8> {
    seq![kind_letter(address.kind)] + hex(address.hi as nat, 32) + hex(address.lo as nat, 32)
}

/// The part of an identifier that has the same width for every input.
pub open spec fn fixed_part(letter: u8, from: Address, to: Address, timestamp: u64) -> Seq<u8> {
    seq![letter] + address_code(from) + address_code(to) + hex(timestamp as nat, 16)
}

/// A text preceded by its length.
pub open spec fn counted(text: Seq<u8>) -> Seq<u8> {
    hex(text.len(), 16) + text
}

/// The identifier of the attestation of `issuer` about `subject`.
pub open spec fn attestation_id(
    issuer: Address,
    subject: Address,
    claim_type: Seq<u8>,
    timestamp: u64,
) -> Seq<u8> {
    fixed_part(0x61, issuer, subject, timestamp) + claim_type
}

/// The identifier of an attestation that `bridge` mirrors from another chain.
pub open spec fn bridge_id(
    bridge: Address,
    subject: Address,
    claim_type: Seq<u8>,
    source_chain: Seq<u8>,
    source_tx: Seq<u8>,
    timestamp: u64,
) -> Seq<u8> {
    fixed_part(0x62, bridge, subject, timestamp) + counted(claim_type) + counted(source_chain)
        + source_tx
}

/// The identifier of a multi-signature proposal.
pub open spec fn proposal_id(
    proposer: Address,
    subject: Address,
    claim_type: Seq<u8>,
    timestamp: u64,
) -> Seq<u8> {
    fixed_part(0x70, proposer, subject, timestamp) + claim_type
}

/// Sixteen to the power of `width`.
pub open spec fn pow16(width: nat) -> nat
    decreases width,
{
    if width == 0 {
        1
    } else {
        16 * pow16((width - 1) as nat)
    }
}

proof fn lemma_hex_len(n: nat, width: nat)
    ensures
        hex(n, width).len() == width,
    decreases width,
{
    if width > 0 {
        lemma_hex_len(n / 16, (width - 1) as nat);
    }
}

proof fn lemma_hex_injective(a: nat, b: nat, width: nat)
    requires
        a < pow16(width),
        b < pow16(width),
        hex(a, width) == hex(b, width),
    ensures
        a == b,
    decreases width,
{
    if width > 0 {
        let less = (width - 1) as nat;
        let x = hex(a / 16, less);
        let y = hex(b / 16, less);
        assert(hex(a, width) == x.push(hex_digit(a % 16)));
        assert(hex(b, width) == y.push(hex_digit(b % 16)));
        assert(hex(a, width).last() == hex_digit(a % 16));
        assert(hex(b, width).last() == hex_digit(b % 16));
        assert(x =~= hex(a, width).drop_last());
        assert(y =~= hex(b, width).drop_last());
        assert(a % 16 == b % 16);
        lemma_hex_injective(a / 16, b / 16, less);
    }
}

proof fn lemma_widths()
    ensures
        u128::MAX < pow16(32),
        u64::MAX < pow16(16),
{
    reveal_with_fuel(pow16, 33);
}

proof fn lemma_address_len(address: Address)
    ensures
        address_code(address).len() == 65,
{
    lemma_hex_len(address.hi as nat, 32);
    lemma_hex_len(address.lo as nat, 32);
}

proof fn lemma_address_injective(a: Address, b: Address)
    requires
        address_code(a) == address_code(b),
    ensures
        a == b,
{
    lemma_widths();
    lemma_hex_len(a.hi as nat, 32);
    lemma_hex_len(a.lo as nat, 32);
    lemma_hex_len(b.hi as nat, 32);
    lemma_hex_len(b.lo as nat, 32);
    let x = address_code(a);
    let y = address_code(b);
    assert(x[0] == kind_letter(a.kind) && y[0] == kind_letter(b.kind));
    assert(x.subrange(1, 33) =~= hex(a.hi as nat, 32));
    assert(y.subrange(1, 33) =~= hex(b.hi as nat, 32));
    assert(x.subrange(33, 65) =~= hex(a.lo as nat, 32));
    assert(y.subrange(33, 65) =~= hex(b.lo as nat, 32));
    lemma_hex_injective(a.hi as nat, b.hi as nat, 32);
    lemma_hex_injective(a.lo as nat, b.lo as nat, 32);
}

proof fn lemma_fixed_len(letter: u8, from: Address, to: Address, timestamp: u64)
    ensures
        fixed_part(letter, from, to, timestamp).len() == 147,
{
    lemma_address_len(from);
    lemma_address_len(to);
    lemma_hex_len(timestamp as nat, 16);
}

proof fn lemma_fixed_injective(
    letter1: u8,
    from1: Address,
    to1: Address,
    timestamp1: u64,
    letter2: u8,
    from2: Address,
    to2: Address,
    timestamp2: u64,
)
    requires
        fixed_part(letter1, from1, to1, timestamp1) == fixed_part(letter2, from2, to2, timestamp2),
    ensures
        letter1 == letter2,
        from1 == from2,
        to1 == to2,
        timestamp1 == timestamp2,
{
    lemma_widths();
    lemma_address_len(from1);
    lemma_address_len(to1);
    lemma_hex_len(timestamp1 as nat, 16);
    lemma_address_len(from2);
    lemma_address_len(to2);
    lemma_hex_len(timestamp2 as nat, 16);
    let x = fixed_part(letter1, from1, to1, timestamp1);
    let y = fixed_part(letter2, from2, to2, timestamp2);
    assert(x[0] == letter1 && y[0] == letter2);
    assert(x.subrange(1, 66) =~= address_code(from1));
    assert(y.subrange(1, 66) =~= address_code(from2));
    assert(x.subrange(66, 131) =~= address_code(to1));
    assert(y.subrange(66, 131) =~= address_code(to2));
    assert(x.subrange(131, 147) =~= hex(timestamp1 as nat, 16));
    assert(y.subrange(131, 147) =~= hex(timestamp2 as nat, 16));
    lemma_address_injective(from1, from2);
    lemma_address_injective(to1, to2);
    lemma_hex_injective(timestamp1 as nat, timestamp2 as nat, 16);
}

/// Two sequences that agree, and begin with parts of one length, agree in those parts and in
/// what follows them.
proof fn lemma_split(a: Seq<u8>, b: Seq<u8>, c: Seq<u8>, d: Seq<u8>)
    requires
        a.len() == c.len(),
        a + b == c + d,
    ensures
        a == c,
        b == d,
{
    assert(a =~= (a + b).take(a.len() as int));
    assert(c =~= (c + d).take(a.len() as int));
    assert(b =~= (a + b).skip(a.len() as int));
    assert(d =~= (c + d).skip(a.len() as int));
}

/// Two different attestations of issuers never share an identifier: the identifier determines
/// the issuer, the subject, the claim type and the time.
pub proof fn attestation_id_is_injective(
    issuer1: Address,
    subject1: Address,
    claim_type1: Seq<u8>,
    timestamp1: u64,
    issuer2: Address,
    subject2: Address,
    claim_type2: Seq<u8>,
    timestamp2: u64,
)
    requires
        attestation_id(issuer1, subject1, claim_type1, timestamp1) == attestation_id(
            issuer2,
            subject2,
            claim_type2,
            timestamp2,
        ),
    ensures
        issuer1 == issuer2,
        subject1 == subject2,
        claim_type1 == claim_type2,
        timestamp1 == timestamp2,
{
    lemma_fixed_len(0x61, issuer1, subject1, timestamp1);
    lemma_fixed_len(0x61, issuer2, subject2, timestamp2);
    lemma_split(
        fixed_part(0x61, issuer1, subject1, timestamp1),
        claim_type1,
        fixed_part(0x61, issuer2, subject2, timestamp2),
        claim_type2,
    );
    lemma_fixed_injective(
        0x61,
        issuer1,
        subject1,
        timestamp1,
        0x61,
        issuer2,
        subject2,
        timestamp2,
    );
}

/// An attestation of an issuer and a bridged one never share an identifier.
pub proof fn attestation_id_is_no_bridge_id(
    issuer: Address,
    subject1: Address,
    claim_type1: Seq<u8>,
    timestamp1: u64,
    bridge: Address,
    subject2: Address,
    claim_type2: Seq<u8>,
    source_chain: Seq<u8>,
    source_tx: Seq<u8>,
    timestamp2: u64,
)
    ensures
        attestation_id(issuer, subject1, claim_type1, timestamp1) != bridge_id(
            bridge,
            subject2,
            claim_type2,
            source_chain,
            source_tx,
            timestamp2,
        ),
{
    lemma_fixed_len(0x61, issuer, subject1, timestamp1);
    lemma_fixed_len(0x62, bridge, subject2, timestamp2);
    assert(attestation_id(issuer, subject1, claim_type1, timestamp1)[0] == 0x61);
    assert(bridge_id(
        bridge,
        subject2,
        claim_type2,
        source_chain,
        source_tx,
        timestamp2,
    )[0] == 0x62);
}

/// Two different bridged attestations never share an identifier: the identifier determines
/// everything that it is derived from. No text is longer than a machine word can count.
pub proof fn bridge_id_is_injective(
    bridge1: Address,
    subject1: Address,
    claim_type1: Seq<u8>,
    source_chain1: Seq<u8>,
    source_tx1: Seq<u8>,
    timestamp1: u64,
    bridge2: Address,
    subject2: Address,
    claim_type2: Seq<u8>,
    source_chain2: Seq<u8>,
    source_tx2: Seq<u8>,
    timestamp2: u64,
)
    requires
        claim_type1.len() <= u64::MAX,
        source_chain1.len() <= u64::MAX,
        claim_type2.len() <= u64::MAX,
        source_chain2.len() <= u64::MAX,
        bridge_id(bridge1, subject1, claim_type1, source_chain1, source_tx1, timestamp1)
            == bridge_id(bridge2, subject2, claim_type2, source_chain2, source_tx2, timestamp2),
    ensures
        bridge1 == bridge2,
        subject1 == subject2,
        claim_type1 == claim_type2,
        source_chain1 == source_chain2,
        source_tx1 == source_tx2,
        timestamp1 == timestamp2,
{
    lemma_widths();
    lemma_fixed_len(0x62, bridge1, subject1, timestamp1);
    lemma_fixed_len(0x62, bridge2, subject2, timestamp2);
    let head1 = fixed_part(0x62, bridge1, subject1, timestamp1);
    let head2 = fixed_part(0x62, bridge2, subject2, timestamp2);
    let rest1 = counted(claim_type1) + counted(source_chain1) + source_tx1;
    let rest2 = counted(claim_type2) + counted(source_chain2) + source_tx2;
    assert(bridge_id(bridge1, subject1, claim_type1, source_chain1, source_tx1, timestamp1)
        =~= head1 + rest1);
    assert(bridge_id(bridge2, subject2, claim_type2, source_chain2, source_tx2, timestamp2)
        =~= head2 + rest2);
    lemma_split(head1, rest1, head2, rest2);
    lemma_fixed_injective(
        0x62,
        bridge1,
        subject1,
        timestamp1,
        0x62,
        bridge2,
        subject2,
        timestamp2,
    );
    let tail1 = counted(source_chain1) + source_tx1;
    let tail2 = counted(source_chain2) + source_tx2;
    assert(rest1 =~= counted(claim_type1) + tail1);
    assert(rest2 =~= counted(claim_type2) + tail2);
    lemma_counted_split(claim_type1, tail1, claim_type2, tail2);
    lemma_counted_split(source_chain1, source_tx1, source_chain2, source_tx2);
}

/// Two different proposals never share an identifier: the identifier determines the proposer, the
/// subject, the claim type and the time.
pub proof fn proposal_id_is_injective(
    proposer1: Address,
    subject1: Address,
    claim_type1: Seq<u8>,
    timestamp1: u64,
    proposer2: Address,
    subject2: Address,
    claim_type2: Seq<u8>,
    timestamp2: u64,
)
    requires
        proposal_id(proposer1, subject1, claim_type1, timestamp1) == proposal_id(
            proposer2,
            subject2,
            claim_type2,
            timestamp2,
        ),
    ensures
        proposer1 == proposer2,
        subject1 == subject2,
        claim_type1 == claim_type2,
        timestamp1 == timestamp2,
{
    lemma_fixed_len(0x70, proposer1, subject1, timestamp1);
    lemma_fixed_len(0x70, proposer2, subject2, timestamp2);
    lemma_split(
        fixed_part(0x70, proposer1, subject1, timestamp1),
        claim_type1,
        fixed_part(0x70, proposer2, subject2, timestamp2),
        claim_type2,
    );
    lemma_fixed_injective(
        0x70,
        proposer1,
        subject1,
        timestamp1,
        0x70,
        proposer2,
        subject2,
        timestamp2,
    );
}

/// A proposal and an attestation of an issuer never share an identifier.
pub proof fn proposal_id_is_no_attestation_id(
    proposer: Address,
    subject1: Address,
    claim_type1: Seq<u8>,
    timestamp1: u64,
    issuer: Address,
    subject2: Address,
    claim_type2: Seq<u8>,
    timestamp2: u64,
)
    ensures
        proposal_id(proposer, subject1, claim_type1, timestamp1) != attestation_id(
            issuer,
            subject2,
            claim_type2,
            timestamp2,
        ),
{
    lemma_fixed_len(0x70, proposer, subject1, timestamp1);
    lemma_fixed_len(0x61, issuer, subject2, timestamp2);
    assert(proposal_id(proposer, subject1, claim_type1, timestamp1)[0] == 0x70);
    assert(attestation_id(issuer, subject2, claim_type2, timestamp2)[0] == 0x61);
}

proof fn lemma_counted_split(a: Seq<u8>, b: Seq<u8>, c: Seq<u8>, d: Seq<u8>)
    requires
        a.len() <= u64::MAX,
        c.len() <= u64::MAX,
        counted(a) + b == counted(c) + d,
    ensures
        a == c,
        b == d,
{
    lemma_widths();
    lemma_hex_len(a.len(), 16);
    lemma_hex_len(c.len(), 16);
    assert(counted(a) + b =~= hex(a.len(), 16) + (a + b));
    assert(counted(c) + d =~= hex(c.len(), 16) + (c + d));
    lemma_split(hex(a.len(), 16), a + b, hex(c.len(), 16), c + d);
    lemma_hex_injective(a.len(), c.len(), 16);
    lemma_split(a, b, c, d);
}

/// Puts the last `width` hexadecimal digits of `n` at the end of `out`.
fn put_hex(out: &mut Vec<u8>, n: u128, width: u8)
    ensures
        final(out)@ == old(out)@ + hex(n as nat, width as nat),
    decreases width,
{
    if width == 0 {
        assert(out@ =~= out@ + hex(n as nat, 0));
    } else {
        let ghost before = out@;
        put_hex(out, n / 16, width - 1);
        let d = (n % 16) as u8;
        let digit: u8 = if d < 10 {
            0x30 + d
        } else {
            0x57 + d
        };
        out.push(digit);
        assert(out@ =~= before + hex(n as nat, width as nat));
    }
}

/// Puts the bytes of `text` at the end of `out`.
fn put_text(out: &mut Vec<u8>, text: &Text)
    ensures
        final(out)@ == old(out)@ + text@,
{
    let ghost before = out@;
    let mut i: usize = 0;
    assert(out@ =~= before + text@.take(0));
    while i < text.bytes.len()
        invariant
            i <= text.bytes.len(),
            out@ == before + text@.take(i as int),
        decreases text.bytes.len() - i,
    {
        out.push(text.bytes[i]);
        i += 1;
        assert(out@ =~= before + text@.take(i as int));
    }
    assert(text@.take(i as int) =~= text@);
}

/// Puts `text`, preceded by its length, at the end of `out`.
fn put_counted(out: &mut Vec<u8>, text: &Text)
    ensures
        final(out)@ == old(out)@ + counted(text@),
{
    let ghost before = out@;
    put_hex(out, text.len() as u128, 16);
    put_text(out, text);
    assert(out@ =~= before + counted(text@));
}

/// Puts an address at the end of `out`.
fn put_address(out: &mut Vec<u8>, address: &Address)
    ensures
        final(out)@ == old(out)@ + address_code(*address),
{
    let ghost before = out@;
    let letter: u8 = match address.kind {
        AddressKind::Account => 0x47,
        AddressKind::Contract => 0x43,
    };
    out.push(letter);
    put_hex(out, address.hi, 32);
    put_hex(out, address.lo, 32);
    assert(out@ =~= before + address_code(*address));
}

/// The part of an identifier that has the same width for every input.
fn put_fixed(letter: u8, from: &Address, to: &Address, timestamp: u64) -> (r: Vec<u8>)
    ensures
        r@ == fixed_part(letter, *from, *to, timestamp),
{
    let mut out: Vec<u8> = Vec::new();
    out.push(letter);
    put_address(&mut out, from);
    put_address(&mut out, to);
    put_hex(&mut out, timestamp as u128, 16);
    assert(out@ =~= fixed_part(letter, *from, *to, timestamp));
    out
}

impl Attestation {
    /// The identifier of the attestation of `issuer` about `subject`. It is derived from the
    /// arguments alone, so the same combination always gives the same identifier.
    pub fn generate_id(
        issuer: &Address,
        subject: &Address,
        claim_type: &Text,
        timestamp: u64,
    ) -> (r: Text)
        ensures
            r@ == attestation_id(*issuer, *subject, claim_type@, timestamp),
    {
        let mut out = put_fixed(0x61, issuer, subject, timestamp);
        put_text(&mut out, claim_type);
        Text { bytes: out }
    }

    /// The identifier of the attestation that `bridge` mirrors from another chain.
    pub fn generate_bridge_id(
        bridge: &Address,
        subject: &Address,
        claim_type: &Text,
        source_chain: &Text,
        source_tx: &Text,
        timestamp: u64,
    ) -> (r: Text)
        ensures
            r@ == bridge_id(
                *bridge,
                *subject,
                claim_type@,
                source_chain@,
                source_tx@,
                timestamp,
            ),
    {
        let mut out = put_fixed(0x62, bridge, subject, timestamp);
        put_counted(&mut out, claim_type);
        put_counted(&mut out, source_chain);
        put_text(&mut out, source_tx);
        Text { bytes: out }
    }
}

impl MultiSigProposal {
    /// The identifier of the proposal of `proposer` about `subject`.
    pub fn generate_id(
        proposer: &Address,
        subject: &Address,
        claim_type: &Text,
        timestamp: u64,
    ) -> (r: Text)
        ensures
            r@ == proposal_id(*proposer, *subject, claim_type@, timestamp),
    {
        let mut out = put_fixed(0x70, proposer, subject, timestamp);
        put_text(&mut out, claim_type);
        Text { bytes: out }
    }
}

} // verus!
