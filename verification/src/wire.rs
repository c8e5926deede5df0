//! The wire format of a reading: one JSON object of integer members on one
//! line.
//!
//! Reading the JSON text itself is left to `serde_json`. What the library
//! makes of the members that come back, and the text that it writes for a
//! reading, are verified here.

use crate::text::{same_text, trim, trimmed};
use crate::ups_data::UpsData;
use vstd::prelude::*;
use vstd::string::*;

verus! {

/// Why a line gave no reading.
#[derive(Clone, Copy, Debug, PartialEq, Eq, Structural)]
pub enum ParseError {
    /// The line holds nothing but white space.
    Empty,
    /// The line is not one JSON object.
    Malformed,
    /// The object lacks `soc` or `vi`.
    MissingField,
    /// A member that stands for a field is no integer, or one that the field
    /// cannot hold.
    InvalidField,
}

/// One member of a JSON object: its name and, where its value is an integer
/// that fits `i64`, that integer.
#[derive(Clone, Debug, PartialEq, Eq)]
pub struct JsonMember {
    pub name: String,
    pub value: Option<i64>,
}

/// What a name leads to among the members of an object.
#[derive(Clone, Copy, Debug, PartialEq, Eq, Structural)]
pub enum Lookup {
    /// No member has the name.
    Absent,
    /// The member's value is not an integer that fits `i64`.
    NotInteger,
    /// The member's value.
    Integer(i64),
}

/// The members of the JSON object that `text` holds, as `serde_json` reads
/// it and in the order in which it hands them out; `None` where it does not
/// accept `text` as one JSON object. A member whose value is not an integer
/// that fits `i64` has no value here.
pub uninterp spec fn json_object_members(text: Seq<char>) -> Option<Seq<(Seq<char>, Option<i64>)>>;

/// The members as plain values.
pub open spec fn members_view(members: Seq<JsonMember>) -> Seq<(Seq<char>, Option<i64>)> {
    Seq::new(members.len(), |i: int| (members[i].name@, members[i].value))
}

/// What `name` leads to: the value of the first member of that name.
pub open spec fn lookup(members: Seq<(Seq<char>, Option<i64>)>, name: Seq<char>) -> Lookup
    decreases members.len(),
{
    if members.len() == 0 {
        Lookup::Absent
    } else if members[0].0 == name {
        match members[0].1 {
            Some(n) => Lookup::Integer(n),
            None => Lookup::NotInteger,
        }
    } else {
        lookup(members.drop_first(), name)
    }
}

/// Whether a field can take what was found for it: nothing, or an integer
/// from `lo` to `hi`.
pub open spec fn acceptable(found: Lookup, lo: int, hi: int) -> bool {
    match found {
        Lookup::Absent => true,
        Lookup::NotInteger => false,
        Lookup::Integer(n) => lo <= n <= hi,
    }
}

/// The value that a field takes: the integer found, or zero where nothing
/// was found.
pub open spec fn value_or_zero(found: Lookup) -> int {
    match found {
        Lookup::Integer(n) => n as int,
        _ => 0,
    }
}

/// Whether every member that stands for a field holds a value that the field
/// can take. Both percentages are at most 100.
pub open spec fn fields_acceptable(members: Seq<(Seq<char>, Option<i64>)>) -> bool {
    &&& acceptable(lookup(members, "up"@), 0, u32::MAX as int)
    &&& acceptable(lookup(members, "pd"@), 0, u8::MAX as int)
    &&& acceptable(lookup(members, "pdo"@), 0, u8::MAX as int)
    &&& acceptable(lookup(members, "cc"@), 0, u8::MAX as int)
    &&& acceptable(lookup(members, "t"@), 0, u32::MAX as int)
    &&& acceptable(lookup(members, "vs"@), 0, u32::MAX as int)
    &&& acceptable(lookup(members, "is"@), 0, u32::MAX as int)
    &&& acceptable(lookup(members, "vr"@), 0, u32::MAX as int)
    &&& acceptable(lookup(members, "ir"@), 0, u32::MAX as int)
    &&& acceptable(lookup(members, "soc"@), 0, 100)
    &&& acceptable(lookup(members, "sd"@), 0, 100)
    &&& acceptable(lookup(members, "bv"@), 0, u32::MAX as int)
    &&& acceptable(lookup(members, "ba"@), i32::MIN as int, i32::MAX as int)
    &&& acceptable(lookup(members, "cs"@), 0, u8::MAX as int)
    &&& acceptable(lookup(members, "pg"@), 0, u8::MAX as int)
    &&& acceptable(lookup(members, "vi"@), 0, u32::MAX as int)
    &&& acceptable(lookup(members, "ii"@), 0, u32::MAX as int)
    &&& acceptable(lookup(members, "ci"@), 0, u32::MAX as int)
    &&& acceptable(lookup(members, "cf"@), 0, u8::MAX as int)
}

/// The reading that the members stand for, where every field takes the value
/// of the member of its name, and zero where there is none.
pub open spec fn sample_with(members: Seq<(Seq<char>, Option<i64>)>) -> UpsData {
    UpsData {
        up: value_or_zero(lookup(members, "up"@)) as u32,
        pd: value_or_zero(lookup(members, "pd"@)) as u8,
        pdo: value_or_zero(lookup(members, "pdo"@)) as u8,
        cc: value_or_zero(lookup(members, "cc"@)) as u8,
        t: value_or_zero(lookup(members, "t"@)) as u32,
        vs: value_or_zero(lookup(members, "vs"@)) as u32,
        is: value_or_zero(lookup(members, "is"@)) as u32,
        vr: value_or_zero(lookup(members, "vr"@)) as u32,
        ir: value_or_zero(lookup(members, "ir"@)) as u32,
        soc: value_or_zero(lookup(members, "soc"@)) as u8,
        sd: value_or_zero(lookup(members, "sd"@)) as u8,
        bv: value_or_zero(lookup(members, "bv"@)) as u32,
        ba: value_or_zero(lookup(members, "ba"@)) as i32,
        cs: value_or_zero(lookup(members, "cs"@)) as u8,
        pg: value_or_zero(lookup(members, "pg"@)) as u8,
        vi: value_or_zero(lookup(members, "vi"@)) as u32,
        ii: value_or_zero(lookup(members, "ii"@)) as u32,
        ci: value_or_zero(lookup(members, "ci"@)) as u32,
        cf: value_or_zero(lookup(members, "cf"@)) as u8,
    }
}

/// What the members of an object decode to.
///
/// `soc` and `vi` must be there. Every other field is zero where its member
/// is missing. Members of other names are passed over.
pub open spec fn sample_of(members: Seq<(Seq<char>, Option<i64>)>) -> Result<UpsData, ParseError> {
    if lookup(members, "soc"@) is Absent || lookup(members, "vi"@) is Absent {
        Err(ParseError::MissingField)
    } else if !fields_acceptable(members) {
        Err(ParseError::InvalidField)
    } else {
        Ok(sample_with(members))
    }
}

/// What a parsed text decodes to.
pub open spec fn decoded(parsed: Option<Seq<(Seq<char>, Option<i64>)>>) -> Result<
    UpsData,
    ParseError,
> {
    match parsed {
        Some(members) => sample_of(members),
        None => Err(ParseError::Malformed),
    }
}

/// What a line decodes to: the line without the white space around it is
/// read as one JSON object, and the members of the object are decoded.
pub open spec fn decoded_line(line: Seq<char>) -> Result<UpsData, ParseError> {
    if trimmed(line).len() == 0 {
        Err(ParseError::Empty)
    } else {
        decoded(json_object_members(trimmed(line)))
    }
}

/// Calls `serde_json::from_str` to read `text` as one JSON object, and
/// `serde_json::Value::as_i64` on the value of each member.
///
/// Trusted: the result is `None` exactly where `serde_json` rejects `text`,
/// and else holds the members that `json_object_members` names.
#[verifier::external_body]
fn parse_json_object(text: &str) -> (r: Option<Vec<JsonMember>>)
    ensures
        match r {
            Some(members) => json_object_members(text@) == Some(members_view(members@)),
            None => json_object_members(text@) is None,
        },
{
    match serde_json::from_str::<serde_json::Map<String, serde_json::Value>>(text) {
        Ok(object) => Some(
            object.into_iter().map(|(name, value)| JsonMember { name, value: value.as_i64() }).collect(),
        ),
        Err(_) => None,
    }
}

/// Finds the first member called `name`.
pub fn find_member(members: &Vec<JsonMember>, name: &str) -> (found: Lookup)
    ensures
        found == lookup(members_view(members@), name@),
{
    let ghost all = members_view(members@);
    assert(all.skip(0) == all);
    let mut i: usize = 0;
    while i < members.len()
        invariant
            i <= members.len(),
            all == members_view(members@),
            lookup(all, name@) == lookup(all.skip(i as int), name@),
        decreases members.len() - i,
    {
        proof {
            let rest = all.skip(i as int);
            assert(rest[0] == all[i as int]);
            assert(rest.drop_first() == all.skip(i + 1));
        }
        if same_text(members[i].name.as_str(), name) {
            return match members[i].value {
                Some(n) => Lookup::Integer(n),
                None => Lookup::NotInteger,
            };
        }
        i += 1;
    }
    Lookup::Absent
}

/// The integer found, or zero where nothing was found, if it lies from `lo`
/// to `hi`.
fn take_field(found: Lookup, lo: i64, hi: i64) -> (r: Option<i64>)
    ensures
        r is Some == acceptable(found, lo as int, hi as int),
        r matches Some(n) ==> n == value_or_zero(found),
{
    match found {
        Lookup::Absent => Some(0),
        Lookup::NotInteger => None,
        Lookup::Integer(n) => if lo <= n && n <= hi {
            Some(n)
        } else {
            None
        },
    }
}

/// The field called `name`, if the members hold a value for it that lies
/// from `lo` to `hi`, or none.
fn field(members: &Vec<JsonMember>, name: &str, lo: i64, hi: i64) -> (r: Option<i64>)
    requires
        lo <= 0 <= hi,
    ensures
        r is Some == acceptable(lookup(members_view(members@), name@), lo as int, hi as int),
        r matches Some(n) ==> n == value_or_zero(lookup(members_view(members@), name@)) && lo
            <= n <= hi,
{
    take_field(find_member(members, name), lo, hi)
}

/// Decodes the members of an object into a reading.
pub fn sample_from_members(members: &Vec<JsonMember>) -> (r: Result<UpsData, ParseError>)
    ensures
        r == sample_of(members_view(members@)),
        r matches Ok(sample) ==> sample.well_formed(),
{
    let soc_found = find_member(members, "soc");
    let vi_found = find_member(members, "vi");
    if matches!(soc_found, Lookup::Absent) || matches!(vi_found, Lookup::Absent) {
        return Err(ParseError::MissingField);
    }
    let up = field(members, "up", 0, 0xffff_ffff);
    let pd = field(members, "pd", 0, 0xff);
    let pdo = field(members, "pdo", 0, 0xff);
    let cc = field(members, "cc", 0, 0xff);
    let t = field(members, "t", 0, 0xffff_ffff);
    let vs = field(members, "vs", 0, 0xffff_ffff);
    let is = field(members, "is", 0, 0xffff_ffff);
    let vr = field(members, "vr", 0, 0xffff_ffff);
    let ir = field(members, "ir", 0, 0xffff_ffff);
    let soc = take_field(soc_found, 0, 100);
    let sd = field(members, "sd", 0, 100);
    let bv = field(members, "bv", 0, 0xffff_ffff);
    let ba = field(members, "ba", -0x8000_0000, 0x7fff_ffff);
    let cs = field(members, "cs", 0, 0xff);
    let pg = field(members, "pg", 0, 0xff);
    let vi = take_field(vi_found, 0, 0xffff_ffff);
    let ii = field(members, "ii", 0, 0xffff_ffff);
    let ci = field(members, "ci", 0, 0xffff_ffff);
    let cf = field(members, "cf", 0, 0xff);
    match (up, pd, pdo, cc, t, vs, is, vr, ir, soc) {
        (
            Some(up),
            Some(pd),
            Some(pdo),
            Some(cc),
            Some(t),
            Some(vs),
            Some(is),
            Some(vr),
            Some(ir),
            Some(soc),
        ) => match (sd, bv, ba, cs, pg, vi, ii, ci, cf) {
            (Some(sd), Some(bv), Some(ba), Some(cs), Some(pg), Some(vi), Some(ii), Some(ci), Some(cf)) => Ok(
                UpsData {
                    up: up as u32,
                    pd: pd as u8,
                    pdo: pdo as u8,
                    cc: cc as u8,
                    t: t as u32,
                    vs: vs as u32,
                    is: is as u32,
                    vr: vr as u32,
                    ir: ir as u32,
                    soc: soc as u8,
                    sd: sd as u8,
                    bv: bv as u32,
                    ba: ba as i32,
                    cs: cs as u8,
                    pg: pg as u8,
                    vi: vi as u32,
                    ii: ii as u32,
                    ci: ci as u32,
                    cf: cf as u8,
                },
            ),
            _ => Err(ParseError::InvalidField),
        },
        _ => Err(ParseError::InvalidField),
    }
}

/// Decodes one line of telemetry: the line without the white space around it
/// is read as a JSON object, and its members are decoded into a reading.
pub fn decode(line: &str) -> (r: Result<UpsData, ParseError>)
    ensures
        r == decoded_line(line@),
        r matches Ok(sample) ==> sample.well_formed(),
{
    let text = trim(line);
    if text.is_empty() {
        return Err(ParseError::Empty);
    }
    match parse_json_object(text) {
        Some(members) => sample_from_members(&members),
        None => Err(ParseError::Malformed),
    }
}

/// The decimal digit for `d`, which is from 0 to 9.
pub open spec fn digit_char(d: int) -> char {
    ((48 + d) as u8) as char
}

/// A natural number in decimal digits, without leading zeros.
pub open spec fn decimal_nat(n: nat) -> Seq<char>
    decreases n,
{
    if n < 10 {
        seq![digit_char(n as int)]
    } else {
        decimal_nat(n / 10).push(digit_char((n % 10) as int))
    }
}

/// An integer in decimal digits, with a minus sign in front where it is
/// negative.
pub open spec fn decimal(n: int) -> Seq<char> {
    if n < 0 {
        seq!['-'] + decimal_nat((-n) as nat)
    } else {
        decimal_nat(n as nat)
    }
}

/// The text of one member: its name in double quotes, a colon, and its value
/// in decimal digits, or `null` where it has none.
pub open spec fn member_text(member: (Seq<char>, Option<i64>)) -> Seq<char> {
    "\""@ + member.0 + "\":"@ + match member.1 {
        Some(n) => decimal(n as int),
        None => "null"@,
    }
}

/// The texts of the members, in order, with a comma between each two.
pub open spec fn members_text(members: Seq<(Seq<char>, Option<i64>)>) -> Seq<char>
    decreases members.len(),
{
    if members.len() == 0 {
        Seq::empty()
    } else if members.len() == 1 {
        member_text(members[0])
    } else {
        members_text(members.drop_last()) + ","@ + member_text(members.last())
    }
}

/// The text of an object: its members between braces.
pub open spec fn object_text(members: Seq<(Seq<char>, Option<i64>)>) -> Seq<char> {
    "{"@ + members_text(members) + "}"@
}

/// The members written for a reading: one for each field, in the order of
/// the wire format.
pub open spec fn wire_members(sample: UpsData) -> Seq<(Seq<char>, Option<i64>)> {
    seq![
        ("up"@, Some(sample.up as i64)),
        ("pd"@, Some(sample.pd as i64)),
        ("pdo"@, Some(sample.pdo as i64)),
        ("cc"@, Some(sample.cc as i64)),
        ("t"@, Some(sample.t as i64)),
        ("vs"@, Some(sample.vs as i64)),
        ("is"@, Some(sample.is as i64)),
        ("vr"@, Some(sample.vr as i64)),
        ("ir"@, Some(sample.ir as i64)),
        ("soc"@, Some(sample.soc as i64)),
        ("sd"@, Some(sample.sd as i64)),
        ("bv"@, Some(sample.bv as i64)),
        ("ba"@, Some(sample.ba as i64)),
        ("cs"@, Some(sample.cs as i64)),
        ("pg"@, Some(sample.pg as i64)),
        ("vi"@, Some(sample.vi as i64)),
        ("ii"@, Some(sample.ii as i64)),
        ("ci"@, Some(sample.ci as i64)),
        ("cf"@, Some(sample.cf as i64)),
    ]
}

/// The text written for a reading.
pub open spec fn wire_text(sample: UpsData) -> Seq<char> {
    object_text(wire_members(sample))
}

/// The digit for `d`.
fn digit_str(d: u64) -> (s: &'static str)
    requires
        d < 10,
    ensures
        s@ == seq![digit_char(d as int)],
{
    proof {
        reveal_strlit("0");
        reveal_strlit("1");
        reveal_strlit("2");
        reveal_strlit("3");
        reveal_strlit("4");
        reveal_strlit("5");
        reveal_strlit("6");
        reveal_strlit("7");
        reveal_strlit("8");
        reveal_strlit("9");
    }
    let s = match d {
        0 => "0",
        1 => "1",
        2 => "2",
        3 => "3",
        4 => "4",
        5 => "5",
        6 => "6",
        7 => "7",
        8 => "8",
        _ => "9",
    };
    assert(s@ =~= seq![digit_char(d as int)]);
    s
}

/// Appends `n` in decimal digits.
fn push_decimal_nat(out: &mut String, n: u64)
    ensures
        final(out)@ == old(out)@ + decimal_nat(n as nat),
    decreases n,
{
    if n >= 10 {
        push_decimal_nat(out, n / 10);
    }
    out.append(digit_str(n % 10));
    assert(final(out)@ =~= old(out)@ + decimal_nat(n as nat));
}

/// Appends `n` in decimal digits, with a minus sign in front where it is
/// negative.
pub fn push_decimal(out: &mut String, n: i64)
    ensures
        final(out)@ == old(out)@ + decimal(n as int),
{
    if n < 0 {
        out.append("-");
        let magnitude: u64 = ((-(n + 1)) as u64) + 1;
        push_decimal_nat(out, magnitude);
        proof {
            reveal_strlit("-");
            assert("-"@ =~= seq!['-']);
            assert(final(out)@ =~= old(out)@ + decimal(n as int));
        }
    } else {
        push_decimal_nat(out, n as u64);
    }
}

/// Appends the text of one member.
fn push_member(out: &mut String, member: &JsonMember)
    ensures
        final(out)@ == old(out)@ + member_text((member.name@, member.value)),
{
    out.append("\"");
    out.append(member.name.as_str());
    out.append("\":");
    match member.value {
        Some(n) => push_decimal(out, n),
        None => out.append("null"),
    }
    assert(final(out)@ =~= old(out)@ + member_text((member.name@, member.value)));
}

/// Writes an object of the given members.
pub fn render_object(members: &Vec<JsonMember>) -> (text: String)
    ensures
        text@ == object_text(members_view(members@)),
{
    let ghost all = members_view(members@);
    let mut out = String::new();
    out.append("{");
    let mut i: usize = 0;
    assert(all.take(0).len() == 0);
    while i < members.len()
        invariant
            i <= members.len(),
            all == members_view(members@),
            out@ == "{"@ + members_text(all.take(i as int)),
        decreases members.len() - i,
    {
        if i > 0 {
            out.append(",");
        }
        push_member(&mut out, &members[i]);
        proof {
            let done = all.take(i + 1);
            assert(done.drop_last() == all.take(i as int));
            assert(done.last() == (members@[i as int].name@, members@[i as int].value));
            assert(out@ =~= "{"@ + members_text(done));
        }
        i += 1;
    }
    out.append("}");
    proof {
        assert(all.take(members.len() as int) == all);
    }
    out
}

/// A member with an integer value.
fn member(name: &str, value: i64) -> (m: JsonMember)
    ensures
        m.name@ == name@,
        m.value == Some(value),
{
    JsonMember { name: name.to_owned(), value: Some(value) }
}

/// The members written for a reading.
pub fn sample_members(sample: &UpsData) -> (members: Vec<JsonMember>)
    ensures
        members_view(members@) == wire_members(*sample),
{
    let mut members: Vec<JsonMember> = Vec::new();
    members.push(member("up", sample.up as i64));
    members.push(member("pd", sample.pd as i64));
    members.push(member("pdo", sample.pdo as i64));
    members.push(member("cc", sample.cc as i64));
    members.push(member("t", sample.t as i64));
    members.push(member("vs", sample.vs as i64));
    members.push(member("is", sample.is as i64));
    members.push(member("vr", sample.vr as i64));
    members.push(member("ir", sample.ir as i64));
    members.push(member("soc", sample.soc as i64));
    members.push(member("sd", sample.sd as i64));
    members.push(member("bv", sample.bv as i64));
    members.push(member("ba", sample.ba as i64));
    members.push(member("cs", sample.cs as i64));
    members.push(member("pg", sample.pg as i64));
    members.push(member("vi", sample.vi as i64));
    members.push(member("ii", sample.ii as i64));
    members.push(member("ci", sample.ci as i64));
    members.push(member("cf", sample.cf as i64));
    assert(members_view(members@) =~= wire_members(*sample));
    members
}

/// Writes a reading in the wire format: one JSON object with a member for
/// each field, without a line end.
pub fn encode(sample: &UpsData) -> (text: String)
    ensures
        text@ == wire_text(*sample),
{
    render_object(&sample_members(sample))
}

/// A name that stands at index `k` of the members, and at no index before,
/// leads to the value at index `k`.
proof fn lemma_lookup_first(members: Seq<(Seq<char>, Option<i64>)>, name: Seq<char>, k: int)
    requires
        0 <= k < members.len(),
        members[k].0 == name,
        forall|j: int| 0 <= j < k ==> members[j].0 != name,
    ensures
        lookup(members, name) == match members[k].1 {
            Some(n) => Lookup::Integer(n),
            None => Lookup::NotInteger,
        },
    decreases k,
{
    if k > 0 {
        let rest = members.drop_first();
        assert(members[0].0 != name);
        assert forall|j: int| 0 <= j < k - 1 implies rest[j].0 != name by {
            assert(rest[j] == members[j + 1]);
        }
        assert(rest[k - 1] == members[k]);
        lemma_lookup_first(rest, name, k - 1);
    }
}

/// The names of the wire format differ from each other.
proof fn lemma_wire_names_differ(sample: UpsData)
    ensures
        forall|i: int, j: int|
            0 <= i < j < 19 ==> (#[trigger] wire_members(sample)[i]).0 != (
            #[trigger] wire_members(sample)[j]).0,
{
    reveal_strlit("up");
    reveal_strlit("pd");
    reveal_strlit("pdo");
    reveal_strlit("cc");
    reveal_strlit("t");
    reveal_strlit("vs");
    reveal_strlit("is");
    reveal_strlit("vr");
    reveal_strlit("ir");
    reveal_strlit("soc");
    reveal_strlit("sd");
    reveal_strlit("bv");
    reveal_strlit("ba");
    reveal_strlit("cs");
    reveal_strlit("pg");
    reveal_strlit("vi");
    reveal_strlit("ii");
    reveal_strlit("ci");
    reveal_strlit("cf");
    let names = seq![
        "up"@,
        "pd"@,
        "pdo"@,
        "cc"@,
        "t"@,
        "vs"@,
        "is"@,
        "vr"@,
        "ir"@,
        "soc"@,
        "sd"@,
        "bv"@,
        "ba"@,
        "cs"@,
        "pg"@,
        "vi"@,
        "ii"@,
        "ci"@,
        "cf"@,
    ];
    assert forall|i: int| 0 <= i < 19 implies (#[trigger] wire_members(sample)[i]).0
        == names[i] by {}
    assert forall|i: int, j: int| 0 <= i < j < 19 implies #[trigger] names[i] != #[trigger] names[j] by {
        let a = names[i];
        let b = names[j];
        if a.len() == b.len() {
            assert(a[0] != b[0] || (a.len() >= 2 && a[1] != b[1]) || (a.len() >= 3 && a[2]
                != b[2]));
        }
    }
}

/// What is written for a reading decodes back to that reading: the members
/// that `encode` writes for a reading whose percentages are at most 100 are
/// members that `sample_from_members` turns into the same reading.
pub proof fn law_written_members_decode_back(sample: UpsData)
    requires
        sample.well_formed(),
    ensures
        sample_of(wire_members(sample)) == Ok::<UpsData, ParseError>(sample),
{
    let members = wire_members(sample);
    lemma_wire_names_differ(sample);
    assert forall|k: int| 0 <= k < 19 implies lookup(members, (#[trigger] members[k]).0)
        == Lookup::Integer(members[k].1->0) by {
        lemma_lookup_first(members, members[k].0, k);
    }
    assert(lookup(members, "up"@) == Lookup::Integer(sample.up as i64)) by {
        assert(members[0].0 == "up"@);
    }
    assert(lookup(members, "pd"@) == Lookup::Integer(sample.pd as i64)) by {
        assert(members[1].0 == "pd"@);
    }
    assert(lookup(members, "pdo"@) == Lookup::Integer(sample.pdo as i64)) by {
        assert(members[2].0 == "pdo"@);
    }
    assert(lookup(members, "cc"@) == Lookup::Integer(sample.cc as i64)) by {
        assert(members[3].0 == "cc"@);
    }
    assert(lookup(members, "t"@) == Lookup::Integer(sample.t as i64)) by {
        assert(members[4].0 == "t"@);
    }
    assert(lookup(members, "vs"@) == Lookup::Integer(sample.vs as i64)) by {
        assert(members[5].0 == "vs"@);
    }
    assert(lookup(members, "is"@) == Lookup::Integer(sample.is as i64)) by {
        assert(members[6].0 == "is"@);
    }
    assert(lookup(members, "vr"@) == Lookup::Integer(sample.vr as i64)) by {
        assert(members[7].0 == "vr"@);
    }
    assert(lookup(members, "ir"@) == Lookup::Integer(sample.ir as i64)) by {
        assert(members[8].0 == "ir"@);
    }
    assert(lookup(members, "soc"@) == Lookup::Integer(sample.soc as i64)) by {
        assert(members[9].0 == "soc"@);
    }
    assert(lookup(members, "sd"@) == Lookup::Integer(sample.sd as i64)) by {
        assert(members[10].0 == "sd"@);
    }
    assert(lookup(members, "bv"@) == Lookup::Integer(sample.bv as i64)) by {
        assert(members[11].0 == "bv"@);
    }
    assert(lookup(members, "ba"@) == Lookup::Integer(sample.ba as i64)) by {
        assert(members[12].0 == "ba"@);
    }
    assert(lookup(members, "cs"@) == Lookup::Integer(sample.cs as i64)) by {
        assert(members[13].0 == "cs"@);
    }
    assert(lookup(members, "pg"@) == Lookup::Integer(sample.pg as i64)) by {
        assert(members[14].0 == "pg"@);
    }
    assert(lookup(members, "vi"@) == Lookup::Integer(sample.vi as i64)) by {
        assert(members[15].0 == "vi"@);
    }
    assert(lookup(members, "ii"@) == Lookup::Integer(sample.ii as i64)) by {
        assert(members[16].0 == "ii"@);
    }
    assert(lookup(members, "ci"@) == Lookup::Integer(sample.ci as i64)) by {
        assert(members[17].0 == "ci"@);
    }
    assert(lookup(members, "cf"@) == Lookup::Integer(sample.cf as i64)) by {
        assert(members[18].0 == "cf"@);
    }
}

} // verus!
