//! Where a node stands, read off the address text it is reported under.
//!
//! The address text (such as `148.153.36.220:8001`, padded and followed by a
//! colon) is cut into fields at every `.` and `:`; the first four fields
//! decide the location.
use vstd::prelude::*;

verus! {

/// The byte `.` or `:`, at which the address text is cut.
pub open spec fn is_separator(b: u8) -> bool {
    b == 46u8 || b == 58u8
}

/// The fields of `s` between separators, in order; `k` separators give
/// `k + 1` fields, some of them possibly empty.
pub open spec fn split_fields(s: Seq<u8>) -> Seq<Seq<u8>>
    decreases s.len(),
{
    if s.len() == 0 {
        seq![Seq::<u8>::empty()]
    } else {
        let prev = split_fields(s.drop_last());
        if is_separator(s.last()) {
            prev.push(Seq::<u8>::empty())
        } else {
            prev.update(prev.len() - 1, prev.last().push(s.last()))
        }
    }
}

/// There is always at least one field.
pub proof fn lemma_split_fields_nonempty(s: Seq<u8>)
    ensures
        split_fields(s).len() >= 1,
    decreases s.len(),
{
    if s.len() > 0 {
        lemma_split_fields_nonempty(s.drop_last());
    }
}

/// The number of separators in `s`.
pub open spec fn separator_count(s: Seq<u8>) -> nat
    decreases s.len(),
{
    if s.len() == 0 {
        0
    } else {
        separator_count(s.drop_last()) + if is_separator(s.last()) {
            1nat
        } else {
            0nat
        }
    }
}

/// Cutting yields one field more than there are separators, and no field
/// holds a separator.
pub proof fn lemma_split_fields_shape(s: Seq<u8>)
    ensures
        split_fields(s).len() == separator_count(s) + 1,
        forall|k: int, j: int|
            0 <= k < split_fields(s).len() && 0 <= j < split_fields(s)[k].len()
                ==> !is_separator(#[trigger] split_fields(s)[k][j]),
    decreases s.len(),
{
    if s.len() > 0 {
        let p = s.drop_last();
        lemma_split_fields_shape(p);
        let f = split_fields(p);
        assert forall|k: int, j: int|
            0 <= k < split_fields(s).len() && 0 <= j < split_fields(s)[k].len()
                implies !is_separator(#[trigger] split_fields(s)[k][j]) by {
            if is_separator(s.last()) {
                if k < f.len() {
                    assert(split_fields(s)[k] == f[k]);
                }
            } else {
                if k < f.len() - 1 {
                    assert(split_fields(s)[k] == f[k]);
                } else {
                    assert(split_fields(s)[k] == f.last().push(s.last()));
                    if j < f.last().len() {
                        assert(split_fields(s)[k][j] == f[k][j]);
                    }
                }
            }
        }
    }
}

/// A location of the known benchmark nodes.
#[derive(PartialEq, Eq, Structural, Clone, Copy, Debug)]
pub enum NodeLocation {
    /// An address that matches none of the known nodes.
    Unknown,
    /// An address of the private range `192.168.*.*`.
    Local,
    UsNewYork,
    DeFrankfurt,
    NeArmsterdam,
    SgSingaopore,
    CnPeking,
}

/// The ASCII digits of a two- or three-digit decimal number.
pub open spec fn text2(a: u8, b: u8) -> Seq<u8> {
    seq![a, b]
}

pub open spec fn text3(a: u8, b: u8, c: u8) -> Seq<u8> {
    seq![a, b, c]
}

/// The field texts that the location test compares with.
pub open spec fn t192() -> Seq<u8> { text3(49, 57, 50) }
pub open spec fn t168() -> Seq<u8> { text3(49, 54, 56) }
pub open spec fn t148() -> Seq<u8> { text3(49, 52, 56) }
pub open spec fn t153() -> Seq<u8> { text3(49, 53, 51) }
pub open spec fn t36() -> Seq<u8> { text2(51, 54) }
pub open spec fn t220() -> Seq<u8> { text3(50, 50, 48) }
pub open spec fn t50() -> Seq<u8> { text2(53, 48) }
pub open spec fn t162() -> Seq<u8> { text3(49, 54, 50) }
pub open spec fn t25() -> Seq<u8> { text2(50, 53) }
pub open spec fn t164() -> Seq<u8> { text3(49, 54, 52) }
pub open spec fn t52() -> Seq<u8> { text2(53, 50) }
pub open spec fn t39() -> Seq<u8> { text2(51, 57) }
pub open spec fn t118() -> Seq<u8> { text3(49, 49, 56) }
pub open spec fn t186() -> Seq<u8> { text3(49, 56, 54) }
pub open spec fn t238() -> Seq<u8> { text3(50, 51, 56) }

/// The fields that the location test reads all exist: the first two always,
/// the third after a `148.153`, `164.52` or `118.186` start, and the fourth
/// where the third then matches a known node.
pub open spec fn location_fields_present(f: Seq<Seq<u8>>) -> bool {
    &&& f.len() >= 2
    &&& (f[0] == t148() && f[1] == t153()) ==> (f.len() >= 3 && ((f[2] == t36() || f[2] == t50()
        || f[2] == t25()) ==> f.len() >= 4))
    &&& (f[0] == t164() && f[1] == t52()) ==> (f.len() >= 3 && (f[2] == t39() ==> f.len() >= 4))
    &&& (f[0] == t118() && f[1] == t186()) ==> (f.len() >= 3 && (f[2] == t39() ==> f.len() >= 4))
}

/// The location named by the fields of an address text.
pub open spec fn location_of_fields(f: Seq<Seq<u8>>) -> NodeLocation {
    if f[0] == t192() && f[1] == t168() {
        NodeLocation::Local
    } else if f[0] == t148() && f[1] == t153() && f[2] == t36() && f[3] == t220() {
        NodeLocation::UsNewYork
    } else if f[0] == t148() && f[1] == t153() && f[2] == t50() && f[3] == t162() {
        NodeLocation::DeFrankfurt
    } else if f[0] == t148() && f[1] == t153() && f[2] == t25() && f[3] == t50() {
        NodeLocation::NeArmsterdam
    } else if f[0] == t164() && f[1] == t52() && f[2] == t39() && f[3] == t162() {
        NodeLocation::SgSingaopore
    } else if f[0] == t118() && f[1] == t186() && f[2] == t39() && f[3] == t238() {
        NodeLocation::CnPeking
    } else {
        NodeLocation::Unknown
    }
}

/// The byte sequences held by a vector of byte vectors.
pub open spec fn byte_views(v: Seq<Vec<u8>>) -> Seq<Seq<u8>> {
    v.map_values(|x: Vec<u8>| x@)
}

/// The fields name one of the known nodes: the private range `192.168`, or
/// one of the five public addresses.
pub open spec fn is_known_node(f: Seq<Seq<u8>>) -> bool {
    ||| f[0] == seq![49u8, 57, 50] && f[1] == seq![49u8, 54, 56]
    ||| f[0] == seq![49u8, 52, 56] && f[1] == seq![49u8, 53, 51] && f[2] == seq![51u8, 54] && f[3]
        == seq![50u8, 50, 48]
    ||| f[0] == seq![49u8, 52, 56] && f[1] == seq![49u8, 53, 51] && f[2] == seq![53u8, 48] && f[3]
        == seq![49u8, 54, 50]
    ||| f[0] == seq![49u8, 52, 56] && f[1] == seq![49u8, 53, 51] && f[2] == seq![50u8, 53] && f[3]
        == seq![53u8, 48]
    ||| f[0] == seq![49u8, 54, 52] && f[1] == seq![53u8, 50] && f[2] == seq![51u8, 57] && f[3]
        == seq![49u8, 54, 50]
    ||| f[0] == seq![49u8, 49, 56] && f[1] == seq![49u8, 56, 54] && f[2] == seq![51u8, 57] && f[3]
        == seq![50u8, 51, 56]
}

/// Each location is named by exactly its fields: `192.168` is local whatever
/// follows, `148.153.36.220` is New York, `148.153.50.162` Frankfurt,
/// `148.153.25.50` Amsterdam, `164.52.39.162` Singapore, `118.186.39.238`
/// Peking, and anything else is unknown.
pub proof fn lemma_location_of_fields(f: Seq<Seq<u8>>)
    ensures
        (location_of_fields(f) == NodeLocation::Local) <==> (f[0] == seq![49u8, 57, 50] && f[1]
            == seq![49u8, 54, 56]),
        (location_of_fields(f) == NodeLocation::UsNewYork) <==> (f[0] == seq![49u8, 52, 56]
            && f[1] == seq![49u8, 53, 51] && f[2] == seq![51u8, 54] && f[3] == seq![50u8, 50, 48]),
        (location_of_fields(f) == NodeLocation::DeFrankfurt) <==> (f[0] == seq![49u8, 52, 56]
            && f[1] == seq![49u8, 53, 51] && f[2] == seq![53u8, 48] && f[3] == seq![49u8, 54, 50]),
        (location_of_fields(f) == NodeLocation::NeArmsterdam) <==> (f[0] == seq![49u8, 52, 56]
            && f[1] == seq![49u8, 53, 51] && f[2] == seq![50u8, 53] && f[3] == seq![53u8, 48]),
        (location_of_fields(f) == NodeLocation::SgSingaopore) <==> (f[0] == seq![49u8, 54, 52]
            && f[1] == seq![53u8, 50] && f[2] == seq![51u8, 57] && f[3] == seq![49u8, 54, 50]),
        (location_of_fields(f) == NodeLocation::CnPeking) <==> (f[0] == seq![49u8, 49, 56]
            && f[1] == seq![49u8, 56, 54] && f[2] == seq![51u8, 57] && f[3] == seq![50u8, 51, 56]),
        (location_of_fields(f) == NodeLocation::Unknown) <==> !is_known_node(f),
{
    assert(t192() =~= seq![49u8, 57, 50]);
    assert(t168() =~= seq![49u8, 54, 56]);
    assert(t148() =~= seq![49u8, 52, 56]);
    assert(t153() =~= seq![49u8, 53, 51]);
    assert(t36() =~= seq![51u8, 54]);
    assert(t220() =~= seq![50u8, 50, 48]);
    assert(t50() =~= seq![53u8, 48]);
    assert(t162() =~= seq![49u8, 54, 50]);
    assert(t25() =~= seq![50u8, 53]);
    assert(t164() =~= seq![49u8, 54, 52]);
    assert(t52() =~= seq![53u8, 50]);
    assert(t39() =~= seq![51u8, 57]);
    assert(t118() =~= seq![49u8, 49, 56]);
    assert(t186() =~= seq![49u8, 56, 54]);
    assert(t238() =~= seq![50u8, 51, 56]);
}

/// Four fields are always enough, fewer than two never; two are enough
/// unless they start one of the public addresses, and a `148.153` start
/// with a third field other than `36`, `50` or `25` needs no fourth.
pub proof fn lemma_location_fields_present(f: Seq<Seq<u8>>)
    ensures
        f.len() >= 4 ==> location_fields_present(f),
        f.len() < 2 ==> !location_fields_present(f),
        f.len() >= 2 && !(f[0] == seq![49u8, 52, 56] && f[1] == seq![49u8, 53, 51]) && !(f[0]
            == seq![49u8, 54, 52] && f[1] == seq![53u8, 50]) && !(f[0] == seq![49u8, 49, 56]
            && f[1] == seq![49u8, 56, 54]) ==> location_fields_present(f),
        f.len() == 2 && f[0] == seq![49u8, 52, 56] && f[1] == seq![49u8, 53, 51]
            ==> !location_fields_present(f),
        f.len() == 3 && f[0] == seq![49u8, 52, 56] && f[1] == seq![49u8, 53, 51] && f[2] == seq![
            51u8,
            54,
        ] ==> !location_fields_present(f),
        f.len() == 3 && f[0] == seq![49u8, 52, 56] && f[1] == seq![49u8, 53, 51] && f[2] == seq![
            57u8,
        ] ==> location_fields_present(f),
{
    assert(t148() =~= seq![49u8, 52, 56]);
    assert(t153() =~= seq![49u8, 53, 51]);
    assert(t36() =~= seq![51u8, 54]);
    assert(t50() =~= seq![53u8, 48]);
    assert(t25() =~= seq![50u8, 53]);
    assert(t164() =~= seq![49u8, 54, 52]);
    assert(t52() =~= seq![53u8, 50]);
    assert(t39() =~= seq![51u8, 57]);
    assert(t118() =~= seq![49u8, 49, 56]);
    assert(t186() =~= seq![49u8, 56, 54]);
    assert(seq![57u8] != t36() && seq![57u8] != t50() && seq![57u8] != t25()) by {
        assert(seq![57u8].len() != t36().len());
    }
}

/// Text without separators is a single field.
pub proof fn lemma_split_fields_no_separator(s: Seq<u8>)
    requires
        forall|j: int| 0 <= j < s.len() ==> !is_separator(#[trigger] s[j]),
    ensures
        split_fields(s) == seq![s],
    decreases s.len(),
{
    if s.len() > 0 {
        let p = s.drop_last();
        assert forall|j: int| 0 <= j < p.len() implies !is_separator(#[trigger] p[j]) by {
            assert(p[j] == s[j]);
        }
        lemma_split_fields_no_separator(p);
        assert(p.push(s.last()) =~= s);
        assert(split_fields(s) =~= seq![s]);
    } else {
        assert(s =~= Seq::<u8>::empty());
    }
}

/// A separator ends the fields before it and starts those after it: the
/// fields of `a`, a separator and `b` are the fields of `a` followed by the
/// fields of `b`.
pub proof fn lemma_split_fields_at_separator(a: Seq<u8>, sep: u8, b: Seq<u8>)
    requires
        is_separator(sep),
    ensures
        split_fields(a.push(sep) + b) == split_fields(a) + split_fields(b),
    decreases b.len(),
{
    if b.len() == 0 {
        assert(a.push(sep) + b =~= a.push(sep));
        assert(a.push(sep).drop_last() =~= a);
        assert(split_fields(a) + split_fields(b) =~= split_fields(a).push(Seq::<u8>::empty()));
    } else {
        let bp = b.drop_last();
        lemma_split_fields_at_separator(a, sep, bp);
        let whole = a.push(sep) + b;
        assert(whole.drop_last() =~= a.push(sep) + bp);
        assert(whole.last() == b.last());
        lemma_split_fields_nonempty(bp);
        lemma_split_fields_nonempty(a);
        let fa = split_fields(a);
        let fb = split_fields(bp);
        if is_separator(b.last()) {
            assert((fa + fb).push(Seq::<u8>::empty()) =~= fa + fb.push(Seq::<u8>::empty()));
        } else {
            assert((fa + fb).update((fa + fb).len() - 1, (fa + fb).last().push(b.last())) =~= fa
                + fb.update(fb.len() - 1, fb.last().push(b.last())));
        }
    }
}

/// Cuts `s` into its fields.
pub fn split_address_fields(s: &[u8]) -> (r: Vec<Vec<u8>>)
    ensures
        byte_views(r@) == split_fields(s@),
{
    let mut done: Vec<Vec<u8>> = Vec::new();
    let mut cur: Vec<u8> = Vec::new();
    let n = s.len();
    let mut i: usize = 0;
    assert(s@.take(0) =~= Seq::<u8>::empty());
    assert(byte_views(done@).push(cur@) =~= seq![Seq::<u8>::empty()]);
    while i < n
        invariant
            n == s@.len(),
            i <= n,
            byte_views(done@).push(cur@) =~= split_fields(s@.take(i as int)),
        decreases n - i,
    {
        let b = s[i];
        let ghost before = byte_views(done@).push(cur@);
        assert(s@.take(i + 1).drop_last() =~= s@.take(i as int));
        assert(s@.take(i + 1).last() == b);
        if b == 46u8 || b == 58u8 {
            let finished = cur;
            done.push(finished);
            cur = Vec::new();
            assert(byte_views(done@).push(cur@) =~= before.push(Seq::<u8>::empty()));
        } else {
            cur.push(b);
            assert(byte_views(done@).push(cur@) =~= before.update(
                before.len() - 1,
                before.last().push(b),
            ));
        }
        i = i + 1;
    }
    assert(s@.take(n as int) =~= s@);
    let ghost before = byte_views(done@).push(cur@);
    done.push(cur);
    assert(byte_views(done@) =~= before);
    done
}

/// Whether `a` holds exactly the bytes of `b`.
fn bytes_equal(a: &[u8], b: &[u8]) -> (r: bool)
    ensures
        r == (a@ == b@),
{
    if a.len() != b.len() {
        return false;
    }
    let n = a.len();
    let mut i: usize = 0;
    while i < n
        invariant
            n == a@.len(),
            n == b@.len(),
            i <= n,
            forall|j: int| 0 <= j < i ==> a@[j] == b@[j],
        decreases n - i,
    {
        if a[i] != b[i] {
            return false;
        }
        i = i + 1;
    }
    assert(a@ =~= b@);
    true
}

/// Whether field `k` of `f` holds exactly the bytes of `text`.
fn field_is(f: &Vec<Vec<u8>>, k: usize, text: &[u8]) -> (r: bool)
    requires
        k < f@.len(),
    ensures
        r == (byte_views(f@)[k as int] == text@),
{
    bytes_equal(f[k].as_slice(), text)
}

/// Whether the location test reads only fields that `prefix` has.
pub fn location_readable(prefix: &[u8]) -> (r: bool)
    ensures
        r == location_fields_present(split_fields(prefix@)),
{
    let f = split_address_fields(prefix);
    proof {
        lemma_split_fields_nonempty(prefix@);
    }
    if f.len() < 2 {
        return false;
    }
    let third_needed = (field_is(&f, 0, &[49u8, 52, 56]) && field_is(&f, 1, &[49u8, 53, 51]))
        || (field_is(&f, 0, &[49u8, 54, 52]) && field_is(&f, 1, &[53u8, 50]))
        || (field_is(&f, 0, &[49u8, 49, 56]) && field_is(&f, 1, &[49u8, 56, 54]));
    if !third_needed {
        return true;
    }
    if f.len() < 3 {
        return false;
    }
    let fourth_needed = if field_is(&f, 0, &[49u8, 52, 56]) {
        field_is(&f, 2, &[51u8, 54]) || field_is(&f, 2, &[53u8, 48]) || field_is(&f, 2, &[50u8, 53])
    } else {
        field_is(&f, 2, &[51u8, 57])
    };
    !fourth_needed || f.len() >= 4
}

/// The location of the node whose address text is `prefix`, read from its
/// first four fields.
pub fn node_location(prefix: &[u8]) -> (r: NodeLocation)
    requires
        location_fields_present(split_fields(prefix@)),
    ensures
        r == location_of_fields(split_fields(prefix@)),
        (r == NodeLocation::Local) <==> (split_fields(prefix@)[0] == seq![49u8, 57, 50]
            && split_fields(prefix@)[1] == seq![49u8, 54, 56]),
        (r == NodeLocation::Unknown) <==> !is_known_node(split_fields(prefix@)),
{
    proof {
        lemma_location_of_fields(split_fields(prefix@));
    }
    let f = split_address_fields(prefix);
    if field_is(&f, 0, &[49u8, 57, 50]) && field_is(&f, 1, &[49u8, 54, 56]) {
        NodeLocation::Local
    } else if field_is(&f, 0, &[49u8, 52, 56]) && field_is(&f, 1, &[49u8, 53, 51])
        && field_is(&f, 2, &[51u8, 54]) && field_is(&f, 3, &[50u8, 50, 48]) {
        NodeLocation::UsNewYork
    } else if field_is(&f, 0, &[49u8, 52, 56]) && field_is(&f, 1, &[49u8, 53, 51])
        && field_is(&f, 2, &[53u8, 48]) && field_is(&f, 3, &[49u8, 54, 50]) {
        NodeLocation::DeFrankfurt
    } else if field_is(&f, 0, &[49u8, 52, 56]) && field_is(&f, 1, &[49u8, 53, 51])
        && field_is(&f, 2, &[50u8, 53]) && field_is(&f, 3, &[53u8, 48]) {
        NodeLocation::NeArmsterdam
    } else if field_is(&f, 0, &[49u8, 54, 52]) && field_is(&f, 1, &[53u8, 50])
        && field_is(&f, 2, &[51u8, 57]) && field_is(&f, 3, &[49u8, 54, 50]) {
        NodeLocation::SgSingaopore
    } else if field_is(&f, 0, &[49u8, 49, 56]) && field_is(&f, 1, &[49u8, 56, 54])
        && field_is(&f, 2, &[51u8, 57]) && field_is(&f, 3, &[50u8, 51, 56]) {
        NodeLocation::CnPeking
    } else {
        NodeLocation::Unknown
    }
}

impl NodeLocation {
    /// The label under which the location is shown in the report.
    pub fn label(&self) -> (r: &'static str)
        ensures
            r@ == location_label(*self),
    {
        match self {
            NodeLocation::Unknown => "Node Location",
            NodeLocation::Local => "LOCAL",
            NodeLocation::UsNewYork => "US_NEW_YORK",
            NodeLocation::DeFrankfurt => "DE_FRANKFURT",
            NodeLocation::NeArmsterdam => "NE_ARMSTERDAM",
            NodeLocation::SgSingaopore => "SG_SINGAOPORE",
            NodeLocation::CnPeking => "CN_PEKING",
        }
    }
}

/// The label of each location.
pub open spec fn location_label(l: NodeLocation) -> Seq<char> {
    match l {
        NodeLocation::Unknown => "Node Location"@,
        NodeLocation::Local => "LOCAL"@,
        NodeLocation::UsNewYork => "US_NEW_YORK"@,
        NodeLocation::DeFrankfurt => "DE_FRANKFURT"@,
        NodeLocation::NeArmsterdam => "NE_ARMSTERDAM"@,
        NodeLocation::SgSingaopore => "SG_SINGAOPORE"@,
        NodeLocation::CnPeking => "CN_PEKING"@,
    }
}

} // verus!
