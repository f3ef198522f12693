//! Rendering of decoded records: one greppable `target|id|value` line
//! per pair for piped output, and one annotated plain line per pair
//! for human-readable output. Each line is produced as a `String`
//! whose contents the contracts pin down; printing — and coloring —
//! is the caller's business.

use vstd::prelude::*;

use vstd::string::StringExecFns;

use crate::avpairs::{
    AvPair, AvPairView, AvValue, AvValueView, AV_CHANNEL_BINDINGS, AV_DNS_COMPUTER_NAME,
    AV_DNS_DOMAIN_NAME, AV_DNS_TREE_NAME, AV_FLAGS, AV_NB_COMPUTER_NAME, AV_NB_DOMAIN_NAME,
    AV_SINGLE_HOST, AV_TIMESTAMP,
};

verus! {

/// The text that a sequence of UTF-16 code units decodes to, invalid
/// parts replaced by the replacement character. Named, not spelled
/// out: the decoding is performed by the standard library.
pub uninterp spec fn utf16_text_of(units: Seq<u16>) -> Seq<char>;

/// Relies on String::from_utf16_lossy: the result is a function of
/// the code units alone, and decoding no units yields the empty
/// string.
#[verifier::external_body]
fn utf16_text(units: &Vec<u16>) -> (r: String)
    ensures
        r@ == utf16_text_of(units@),
        units@.len() == 0 ==> r@.len() == 0,
{
    String::from_utf16_lossy(units.as_slice())
}

/// One decimal digit as text.
pub open spec fn dec_digit_str(d: int) -> Seq<char>
    recommends
        0 <= d < 10,
{
    if d == 0 {
        "0"@
    } else if d == 1 {
        "1"@
    } else if d == 2 {
        "2"@
    } else if d == 3 {
        "3"@
    } else if d == 4 {
        "4"@
    } else if d == 5 {
        "5"@
    } else if d == 6 {
        "6"@
    } else if d == 7 {
        "7"@
    } else if d == 8 {
        "8"@
    } else {
        "9"@
    }
}

/// One hexadecimal digit as text, lower case.
pub open spec fn hex_digit_str(d: int) -> Seq<char>
    recommends
        0 <= d < 16,
{
    if d < 10 {
        dec_digit_str(d)
    } else if d == 10 {
        "a"@
    } else if d == 11 {
        "b"@
    } else if d == 12 {
        "c"@
    } else if d == 13 {
        "d"@
    } else if d == 14 {
        "e"@
    } else {
        "f"@
    }
}

/// The decimal text of a number.
pub open spec fn dec_str(n: nat) -> Seq<char>
    decreases n,
{
    if n < 10 {
        dec_digit_str(n as int)
    } else {
        dec_str(n / 10) + dec_digit_str((n % 10) as int)
    }
}

/// The hexadecimal text of a number, without padding.
pub open spec fn hex_str(n: nat) -> Seq<char>
    decreases n,
{
    if n < 16 {
        hex_digit_str(n as int)
    } else {
        hex_str(n / 16) + hex_digit_str((n % 16) as int)
    }
}

/// A tag as it is annotated in human-readable output: `0x` and at
/// least two hexadecimal digits.
pub open spec fn id_hex_str(id: u16) -> Seq<char> {
    "0x"@ + (if id < 16 {
        "0"@ + hex_digit_str(id as int)
    } else {
        hex_str(id as nat)
    })
}

/// The hexadecimal text of a byte block, two digits per byte.
pub open spec fn bytes_hex(b: Seq<u8>) -> Seq<char>
    decreases b.len(),
{
    if b.len() == 0 {
        Seq::empty()
    } else {
        hex_digit_str(b[0] as int / 16) + hex_digit_str(b[0] as int % 16) + bytes_hex(b.skip(1))
    }
}

/// The canonical identifier of a tag: symbolic for the known tags,
/// decimal for unknown ones.
pub open spec fn id_label_spec(id: u16) -> Seq<char> {
    if id == AV_NB_COMPUTER_NAME {
        "NbComputerName"@
    } else if id == AV_NB_DOMAIN_NAME {
        "NbDomainName"@
    } else if id == AV_DNS_COMPUTER_NAME {
        "DnsComputerName"@
    } else if id == AV_DNS_DOMAIN_NAME {
        "DnsDomainName"@
    } else if id == AV_DNS_TREE_NAME {
        "DnsTreeName"@
    } else if id == AV_FLAGS {
        "Flags"@
    } else if id == AV_TIMESTAMP {
        "Timestamp"@
    } else if id == AV_SINGLE_HOST {
        "SingleHost"@
    } else if id == AV_CHANNEL_BINDINGS {
        "ChannelBindings"@
    } else {
        dec_str(id as nat)
    }
}

/// The decoded textual form of a value: the text itself, decimal for
/// flags and timestamps, hexadecimal for opaque bytes.
pub open spec fn value_text_spec(v: AvValueView) -> Seq<char> {
    match v {
        AvValueView::Text(u) => utf16_text_of(u),
        AvValueView::Flags(f) => dec_str(f as nat),
        AvValueView::Timestamp(t) => dec_str(t as nat),
        AvValueView::Bytes(b) => bytes_hex(b),
    }
}

/// One greppable output line.
pub open spec fn greppable_line_spec(target: Seq<char>, p: AvPairView) -> Seq<char> {
    target + "|"@ + id_label_spec(p.id) + "|"@ + value_text_spec(p.value)
}

/// One human-readable output line, before any coloring.
pub open spec fn plain_line_spec(p: AvPairView) -> Seq<char> {
    "[+] "@ + id_hex_str(p.id) + " "@ + id_label_spec(p.id) + ": "@ + value_text_spec(p.value)
}

/// The per-target header of human-readable output.
pub open spec fn header_line_spec(target: Seq<char>) -> Seq<char> {
    "Target: "@ + target
}

/// Appends one decimal digit.
fn push_dec_digit(s: &mut String, d: u64)
    requires
        d < 10,
    ensures
        final(s)@ == old(s)@ + dec_digit_str(d as int),
{
    if d == 0 {
        s.append("0");
    } else if d == 1 {
        s.append("1");
    } else if d == 2 {
        s.append("2");
    } else if d == 3 {
        s.append("3");
    } else if d == 4 {
        s.append("4");
    } else if d == 5 {
        s.append("5");
    } else if d == 6 {
        s.append("6");
    } else if d == 7 {
        s.append("7");
    } else if d == 8 {
        s.append("8");
    } else {
        s.append("9");
    }
}

/// Appends one hexadecimal digit.
fn push_hex_digit(s: &mut String, d: u64)
    requires
        d < 16,
    ensures
        final(s)@ == old(s)@ + hex_digit_str(d as int),
{
    if d < 10 {
        push_dec_digit(s, d);
    } else if d == 10 {
        s.append("a");
    } else if d == 11 {
        s.append("b");
    } else if d == 12 {
        s.append("c");
    } else if d == 13 {
        s.append("d");
    } else if d == 14 {
        s.append("e");
    } else {
        s.append("f");
    }
}

/// Appends the decimal text of `n`.
fn push_dec(s: &mut String, n: u64)
    ensures
        final(s)@ == old(s)@ + dec_str(n as nat),
    decreases n,
{
    if n < 10 {
        push_dec_digit(s, n);
    } else {
        assert(n / 10 < n && n / 10 >= 1) by (nonlinear_arith)
            requires
                n >= 10,
        ;
        push_dec(s, n / 10);
        push_dec_digit(s, n % 10);
        assert(old(s)@ + dec_str((n / 10) as nat) + dec_digit_str((n % 10) as int) =~= old(s)@
            + dec_str(n as nat));
    }
}

/// Appends the hexadecimal text of `n`.
fn push_hex(s: &mut String, n: u64)
    ensures
        final(s)@ == old(s)@ + hex_str(n as nat),
    decreases n,
{
    if n < 16 {
        push_hex_digit(s, n);
    } else {
        assert(n / 16 < n && n / 16 >= 1) by (nonlinear_arith)
            requires
                n >= 16,
        ;
        push_hex(s, n / 16);
        push_hex_digit(s, n % 16);
        assert(old(s)@ + hex_str((n / 16) as nat) + hex_digit_str((n % 16) as int) =~= old(s)@
            + hex_str(n as nat));
    }
}

/// Appends `0x` and at least two hexadecimal digits of a tag.
fn push_id_hex(s: &mut String, id: u16)
    ensures
        final(s)@ == old(s)@ + id_hex_str(id),
{
    s.append("0x");
    if id < 16 {
        s.append("0");
        push_hex_digit(s, id as u64);
    } else {
        push_hex(s, id as u64);
    }
    assert(s@ =~= old(s)@ + id_hex_str(id));
}

/// Appends the hexadecimal text of a byte block.
fn push_bytes_hex(s: &mut String, b: &Vec<u8>)
    ensures
        final(s)@ == old(s)@ + bytes_hex(b@),
{
    let n = b.len();
    let mut i: usize = 0;
    while i < n
        invariant
            i <= n == b@.len(),
            s@ == old(s)@ + bytes_hex(b@.take(i as int)),
        decreases n - i,
    {
        let ghost done = b@.take(i as int);
        let x = b[i];
        push_hex_digit(s, (x / 16) as u64);
        push_hex_digit(s, (x % 16) as u64);
        i = i + 1;
        proof {
            lemma_bytes_hex_snoc(b@.take(i as int));
            assert(b@.take(i as int).drop_last() =~= done);
            assert(b@.take(i as int).last() == b@[i - 1]);
            assert(s@ =~= old(s)@ + bytes_hex(b@.take(i as int)));
        }
    }
    assert(b@.take(n as int) =~= b@);
}

/// The hexadecimal text of a block grows two digits per byte.
proof fn lemma_bytes_hex_snoc(b: Seq<u8>)
    requires
        b.len() > 0,
    ensures
        bytes_hex(b) == bytes_hex(b.drop_last()) + hex_digit_str(b.last() as int / 16)
            + hex_digit_str(b.last() as int % 16),
    decreases b.len(),
{
    if b.len() == 1 {
        assert(b.skip(1) =~= Seq::<u8>::empty());
        assert(b.drop_last() =~= Seq::<u8>::empty());
        assert(bytes_hex(Seq::<u8>::empty()) == Seq::<char>::empty());
        assert(bytes_hex(b) =~= bytes_hex(b.drop_last()) + hex_digit_str(b.last() as int / 16)
            + hex_digit_str(b.last() as int % 16));
    } else {
        lemma_bytes_hex_snoc(b.skip(1));
        assert(b.skip(1).drop_last() =~= b.drop_last().skip(1));
        assert(b.skip(1).last() == b.last());
        assert(b.drop_last()[0] == b[0]);
        assert(b.drop_last().len() > 0);
        assert(bytes_hex(b.drop_last()) == hex_digit_str(b.drop_last()[0] as int / 16)
            + hex_digit_str(b.drop_last()[0] as int % 16) + bytes_hex(b.drop_last().skip(1)));
        assert(bytes_hex(b) =~= bytes_hex(b.drop_last()) + hex_digit_str(b.last() as int / 16)
            + hex_digit_str(b.last() as int % 16));
    }
}

/// Appends the canonical identifier of a tag.
fn push_id_label(s: &mut String, id: u16)
    ensures
        final(s)@ == old(s)@ + id_label_spec(id),
{
    if id == AV_NB_COMPUTER_NAME {
        s.append("NbComputerName");
    } else if id == AV_NB_DOMAIN_NAME {
        s.append("NbDomainName");
    } else if id == AV_DNS_COMPUTER_NAME {
        s.append("DnsComputerName");
    } else if id == AV_DNS_DOMAIN_NAME {
        s.append("DnsDomainName");
    } else if id == AV_DNS_TREE_NAME {
        s.append("DnsTreeName");
    } else if id == AV_FLAGS {
        s.append("Flags");
    } else if id == AV_TIMESTAMP {
        s.append("Timestamp");
    } else if id == AV_SINGLE_HOST {
        s.append("SingleHost");
    } else if id == AV_CHANNEL_BINDINGS {
        s.append("ChannelBindings");
    } else {
        push_dec(s, id as u64);
    }
}

/// Appends the decoded textual form of a value.
fn push_value_text(s: &mut String, v: &AvValue)
    ensures
        final(s)@ == old(s)@ + value_text_spec(v@),
{
    match v {
        AvValue::Text(u) => {
            let t = utf16_text(u);
            s.append(t.as_str());
        },
        AvValue::Flags(f) => {
            push_dec(s, *f as u64);
        },
        AvValue::Timestamp(t) => {
            push_dec(s, *t);
        },
        AvValue::Bytes(bs) => {
            push_bytes_hex(s, bs);
        },
    }
}

/// One decoded record: the target it came from and its pairs in wire
/// order, end marker excluded. Handed to the reporting layer and
/// never mutated afterwards.
pub struct Record {
    pub target: String,
    pub av_pairs: Vec<AvPair>,
}

impl Record {
    /// Bundles a target with its decoded pairs.
    pub fn new(target: String, av_pairs: Vec<AvPair>) -> (r: Record)
        ensures
            r.target == target,
            r.av_pairs == av_pairs,
    {
        Record { target, av_pairs }
    }
}

/// The output mode chosen once at startup: greppable (pipe-friendly,
/// standard output) or human-readable, the latter colored unless
/// disabled.
pub struct Output {
    pub greppable: bool,
    pub no_color: bool,
}

impl Output {
    /// Fixes the output mode.
    pub fn new(greppable: bool, no_color: bool) -> (r: Output)
        ensures
            r.greppable == greppable,
            r.no_color == no_color,
    {
        Output { greppable, no_color }
    }

    /// The greppable lines of a record: exactly one `target|id|value`
    /// line per pair, in wire order, with no decoration.
    pub fn greppable_lines(&self, r: &Record) -> (lines: Vec<String>)
        ensures
            lines@.len() == r.av_pairs@.len(),
            forall|i: int|
                0 <= i < lines@.len() ==> #[trigger] lines@[i]@ == greppable_line_spec(
                    r.target@,
                    r.av_pairs@[i]@,
                ),
    {
        let mut lines: Vec<String> = Vec::new();
        let n = r.av_pairs.len();
        let mut i: usize = 0;
        while i < n
            invariant
                i <= n == r.av_pairs@.len(),
                lines@.len() == i,
                forall|j: int|
                    0 <= j < i ==> #[trigger] lines@[j]@ == greppable_line_spec(
                        r.target@,
                        r.av_pairs@[j]@,
                    ),
            decreases n - i,
        {
            let mut s = String::new();
            s.append(r.target.as_str());
            s.append("|");
            push_id_label(&mut s, r.av_pairs[i].id);
            s.append("|");
            push_value_text(&mut s, &r.av_pairs[i].value);
            assert(s@ =~= greppable_line_spec(r.target@, r.av_pairs@[i as int]@));
            lines.push(s);
            i = i + 1;
        }
        lines
    }

    /// The human-readable lines of a record, one annotated line per
    /// pair, before any coloring.
    pub fn plain_lines(&self, r: &Record) -> (lines: Vec<String>)
        ensures
            lines@.len() == r.av_pairs@.len(),
            forall|i: int|
                0 <= i < lines@.len() ==> #[trigger] lines@[i]@ == plain_line_spec(
                    r.av_pairs@[i]@,
                ),
    {
        let mut lines: Vec<String> = Vec::new();
        let n = r.av_pairs.len();
        let mut i: usize = 0;
        while i < n
            invariant
                i <= n == r.av_pairs@.len(),
                lines@.len() == i,
                forall|j: int|
                    0 <= j < i ==> #[trigger] lines@[j]@ == plain_line_spec(r.av_pairs@[j]@),
            decreases n - i,
        {
            let mut s = String::new();
            s.append("[+] ");
            push_id_hex(&mut s, r.av_pairs[i].id);
            s.append(" ");
            push_id_label(&mut s, r.av_pairs[i].id);
            s.append(": ");
            push_value_text(&mut s, &r.av_pairs[i].value);
            assert(s@ =~= plain_line_spec(r.av_pairs@[i as int]@));
            lines.push(s);
            i = i + 1;
        }
        lines
    }

    /// The per-target header of human-readable output.
    pub fn header_line(&self, target: &String) -> (s: String)
        ensures
            s@ == header_line_spec(target@),
    {
        let mut s = String::new();
        s.append("Target: ");
        s.append(target.as_str());
        assert(s@ =~= header_line_spec(target@));
        s
    }
}

/// Whether a pair's value is textual; human-readable output colors
/// text and non-text values differently.
pub fn is_text_value(p: &AvPair) -> (r: bool)
    ensures
        r == (p@.value is Text),
{
    match &p.value {
        AvValue::Text(_) => true,
        _ => false,
    }
}


/// The `0x`-prefixed hexadecimal form of a pair's tag.
pub fn pair_id_hex(p: &AvPair) -> (s: String)
    ensures
        s@ == id_hex_str(p.id),
{
    let mut s = String::new();
    push_id_hex(&mut s, p.id);
    s
}

/// The canonical identifier of a pair's tag.
pub fn pair_label(p: &AvPair) -> (s: String)
    ensures
        s@ == id_label_spec(p.id),
{
    let mut s = String::new();
    push_id_label(&mut s, p.id);
    s
}

/// The decoded textual form of a pair's value.
pub fn pair_value_text(p: &AvPair) -> (s: String)
    ensures
        s@ == value_text_spec(p@.value),
{
    let mut s = String::new();
    push_value_text(&mut s, &p.value);
    s
}

} // verus!
