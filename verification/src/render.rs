//! The exact text the tool prints: one line per scanned peripheral, the
//! service/characteristic listing of an enumeration, and the decimal byte
//! list a read produces.

use vstd::prelude::*;
use vstd::string::StringExecFns;

use crate::device::CharProps;
use crate::device::CharacteristicInfo;
use crate::device::PeripheralInfo;
use crate::device::ServiceInfo;

verus! {

/// What stands for the peripheral's name in a scan line: the advertised name,
/// or "Unknown" when it sent none.
pub open spec fn spec_name_label(name: Option<String>) -> Seq<char> {
    match name {
        Some(n) => n@,
        None => "Unknown"@,
    }
}

/// One scan line: `<address>: <name-or-Unknown>`.
pub open spec fn spec_scan_line(p: PeripheralInfo) -> Seq<char> {
    p.address@ + ": "@ + spec_name_label(p.name)
}

/// Render one discovered peripheral as the scan command prints it.
pub fn scan_line(p: &PeripheralInfo) -> (r: String)
    ensures
        r@ == spec_scan_line(*p),
{
    let mut out = p.address.clone();
    out.append(": ");
    match &p.name {
        Some(n) => out.append(n.as_str()),
        None => out.append("Unknown"),
    }
    out
}

/// Render the whole scan report, one line per peripheral, in scan order.
pub fn scan_report(ps: &Vec<PeripheralInfo>) -> (r: Vec<String>)
    ensures
        r@.len() == ps@.len(),
        forall|i: int| 0 <= i < ps@.len() ==> r@[i]@ == spec_scan_line(ps@[i]),
{
    let mut out: Vec<String> = Vec::new();
    let mut i: usize = 0;
    while i < ps.len()
        invariant
            0 <= i <= ps@.len(),
            out@.len() == i,
            forall|k: int| 0 <= k < i ==> out@[k]@ == spec_scan_line(ps@[k]),
        decreases ps@.len() - i,
    {
        let line = scan_line(&ps[i]);
        out.push(line);
        i = i + 1;
    }
    out
}

/// Append one flag name to a label under construction: nothing when the flag
/// is absent, the name alone when the label is still empty, otherwise a
/// ` | ` separator and the name.
pub open spec fn spec_seg(acc: Seq<char>, present: bool, name: Seq<char>) -> Seq<char> {
    if present {
        if acc.len() == 0 {
            name
        } else {
            acc + " | "@ + name
        }
    } else {
        acc
    }
}

/// The human-readable property label of a characteristic: the names of the
/// set flags joined by ` | `, or `(none)` when no flag is set.
pub open spec fn spec_props_label(p: CharProps) -> Seq<char> {
    let l = spec_seg(
        spec_seg(
            spec_seg(
                spec_seg(
                    spec_seg(
                        spec_seg(
                            spec_seg(
                                spec_seg(Seq::empty(), p.broadcast, "BROADCAST"@),
                                p.read,
                                "READ"@,
                            ),
                            p.write_without_response,
                            "WRITE_WITHOUT_RESPONSE"@,
                        ),
                        p.write,
                        "WRITE"@,
                    ),
                    p.notify,
                    "NOTIFY"@,
                ),
                p.indicate,
                "INDICATE"@,
            ),
            p.authenticated_signed_writes,
            "AUTHENTICATED_SIGNED_WRITES"@,
        ),
        p.extended_properties,
        "EXTENDED_PROPERTIES"@,
    );
    if l.len() == 0 {
        "(none)"@
    } else {
        l
    }
}

fn add_seg(acc: String, present: bool, name: &str) -> (r: String)
    ensures
        r@ == spec_seg(acc@, present, name@),
{
    if present {
        if acc.as_str().is_empty() {
            name.to_owned()
        } else {
            let mut out = acc;
            out.append(" | ");
            out.append(name);
            out
        }
    } else {
        acc
    }
}

/// Render a characteristic's property flags.
pub fn props_label(p: &CharProps) -> (r: String)
    ensures
        r@ == spec_props_label(*p),
{
    let mut out = String::new();
    out = add_seg(out, p.broadcast, "BROADCAST");
    out = add_seg(out, p.read, "READ");
    out = add_seg(out, p.write_without_response, "WRITE_WITHOUT_RESPONSE");
    out = add_seg(out, p.write, "WRITE");
    out = add_seg(out, p.notify, "NOTIFY");
    out = add_seg(out, p.indicate, "INDICATE");
    out = add_seg(out, p.authenticated_signed_writes, "AUTHENTICATED_SIGNED_WRITES");
    out = add_seg(out, p.extended_properties, "EXTENDED_PROPERTIES");
    if out.as_str().is_empty() {
        "(none)".to_owned()
    } else {
        out
    }
}

/// The heading line of one service in the enumeration: `<uuid>:`.
pub open spec fn spec_service_line(s: ServiceInfo) -> Seq<char> {
    s.uuid@ + ":"@
}

/// Render a service heading.
pub fn service_line(s: &ServiceInfo) -> (r: String)
    ensures
        r@ == spec_service_line(*s),
{
    let mut out = s.uuid.clone();
    out.append(":");
    out
}

/// One characteristic line in the enumeration: a tab, the UUID, and the
/// property label.
pub open spec fn spec_char_line(c: CharacteristicInfo) -> Seq<char> {
    "\t"@ + c.uuid@ + ": "@ + spec_props_label(c.properties)
}

/// Render one characteristic line.
pub fn char_line(c: &CharacteristicInfo) -> (r: String)
    ensures
        r@ == spec_char_line(*c),
{
    let mut out = "\t".to_owned();
    out.append(c.uuid.as_str());
    out.append(": ");
    let label = props_label(&c.properties);
    out.append(label.as_str());
    out
}

/// The lines one service contributes to the enumeration: its heading, then
/// one line per characteristic, in declaration order.
pub open spec fn spec_service_lines(s: ServiceInfo) -> Seq<Seq<char>> {
    seq![spec_service_line(s)] + s.characteristics@.map_values(
        |c: CharacteristicInfo| spec_char_line(c),
    )
}

/// The whole enumeration report, service by service.
pub open spec fn spec_report(services: Seq<ServiceInfo>) -> Seq<Seq<char>>
    decreases services.len(),
{
    if services.len() == 0 {
        Seq::empty()
    } else {
        spec_service_lines(services[0]) + spec_report(services.skip(1))
    }
}

proof fn lemma_report_snoc(s: Seq<ServiceInfo>, x: ServiceInfo)
    ensures
        spec_report(s.push(x)) == spec_report(s) + spec_service_lines(x),
    decreases s.len(),
{
    if s.len() == 0 {
        assert(s.push(x)[0] == x);
        assert(s.push(x).skip(1) =~= Seq::<ServiceInfo>::empty());
        assert(spec_report(s.push(x)) == spec_service_lines(x) + spec_report(
            Seq::<ServiceInfo>::empty(),
        ));
        assert(spec_report(s.push(x)) =~~= spec_report(s) + spec_service_lines(x));
    } else {
        assert(s.push(x)[0] == s[0]);
        assert(s.push(x).skip(1) =~= s.skip(1).push(x));
        lemma_report_snoc(s.skip(1), x);
        assert(spec_report(s.push(x)) == spec_service_lines(s[0]) + spec_report(
            s.skip(1).push(x),
        ));
        assert(spec_report(s.push(x)) =~~= spec_report(s) + spec_service_lines(x));
    }
}

/// The views of a vector of rendered lines.
pub open spec fn spec_line_views(lines: Seq<String>) -> Seq<Seq<char>> {
    lines.map_values(|l: String| l@)
}

/// Render the full service/characteristic listing that the enumerate command
/// prints after discovery.
pub fn enumerate_report(services: &Vec<ServiceInfo>) -> (r: Vec<String>)
    ensures
        spec_line_views(r@) == spec_report(services@),
{
    let mut out: Vec<String> = Vec::new();
    let mut i: usize = 0;
    while i < services.len()
        invariant
            0 <= i <= services@.len(),
            spec_line_views(out@) == spec_report(services@.take(i as int)),
        decreases services@.len() - i,
    {
        let svc = &services[i];
        let ghost before = out@;
        let heading = service_line(svc);
        out.push(heading);
        proof {
            assert(spec_line_views(out@) =~= spec_line_views(before).push(
                spec_service_line(services@[i as int]),
            ));
        }
        let mut j: usize = 0;
        while j < svc.characteristics.len()
            invariant
                0 <= i < services@.len(),
                0 <= j <= svc.characteristics@.len(),
                svc == services@[i as int],
                spec_line_views(out@) =~= spec_line_views(before) + seq![
                    spec_service_line(services@[i as int]),
                ] + svc.characteristics@.take(j as int).map_values(
                    |c: CharacteristicInfo| spec_char_line(c),
                ),
            decreases svc.characteristics@.len() - j,
        {
            let ghost mid = out@;
            let line = char_line(&svc.characteristics[j]);
            out.push(line);
            proof {
                assert(spec_line_views(out@) =~= spec_line_views(mid).push(
                    spec_char_line(svc.characteristics@[j as int]),
                ));
                assert(svc.characteristics@.take(j + 1).map_values(
                    |c: CharacteristicInfo| spec_char_line(c),
                ) =~= svc.characteristics@.take(j as int).map_values(
                    |c: CharacteristicInfo| spec_char_line(c),
                ).push(spec_char_line(svc.characteristics@[j as int])));
            }
            j = j + 1;
        }
        proof {
            assert(svc.characteristics@.take(svc.characteristics@.len() as int) =~= svc
                .characteristics@);
            lemma_report_snoc(services@.take(i as int), services@[i as int]);
            assert(services@.take(i + 1) =~= services@.take(i as int).push(
                services@[i as int],
            ));
            assert(spec_line_views(out@) =~= spec_report(services@.take(i + 1)));
        }
        i = i + 1;
    }
    proof {
        assert(services@.take(services@.len() as int) =~= services@);
    }
    out
}

/// The decimal digit character for `d`.
pub open spec fn spec_dig(d: u8) -> char {
    ((48 + d) as char)
}

/// The decimal rendering of one byte, without leading zeros.
pub open spec fn spec_u8_dec(n: u8) -> Seq<char> {
    if n < 10 {
        seq![spec_dig(n)]
    } else if n < 100 {
        seq![spec_dig(n / 10), spec_dig(n % 10)]
    } else {
        seq![spec_dig(n / 100), spec_dig((n / 10) % 10), spec_dig(n % 10)]
    }
}

fn dig_str(d: u8) -> (r: &'static str)
    requires
        d < 10,
    ensures
        r@ == seq![spec_dig(d)],
{
    if d == 0 {
        proof { reveal_strlit("0"); }
        "0"
    } else if d == 1 {
        proof { reveal_strlit("1"); }
        "1"
    } else if d == 2 {
        proof { reveal_strlit("2"); }
        "2"
    } else if d == 3 {
        proof { reveal_strlit("3"); }
        "3"
    } else if d == 4 {
        proof { reveal_strlit("4"); }
        "4"
    } else if d == 5 {
        proof { reveal_strlit("5"); }
        "5"
    } else if d == 6 {
        proof { reveal_strlit("6"); }
        "6"
    } else if d == 7 {
        proof { reveal_strlit("7"); }
        "7"
    } else if d == 8 {
        proof { reveal_strlit("8"); }
        "8"
    } else {
        proof { reveal_strlit("9"); }
        "9"
    }
}

/// Render one byte in decimal.
pub fn dec_u8(n: u8) -> (r: String)
    ensures
        r@ == spec_u8_dec(n),
{
    if n < 10 {
        dig_str(n).to_owned()
    } else if n < 100 {
        let mut out = dig_str(n / 10).to_owned();
        out.append(dig_str(n % 10));
        out
    } else {
        let mut out = dig_str(n / 100).to_owned();
        out.append(dig_str((n / 10) % 10));
        out.append(dig_str(n % 10));
        out
    }
}

/// The comma-separated decimal items of a byte list.
pub open spec fn spec_bytes_items(s: Seq<u8>) -> Seq<char>
    decreases s.len(),
{
    if s.len() == 0 {
        Seq::empty()
    } else if s.len() == 1 {
        spec_u8_dec(s[0])
    } else {
        spec_u8_dec(s[0]) + ", "@ + spec_bytes_items(s.skip(1))
    }
}

/// A byte list as the read command prints it: `[104, 101]`.
pub open spec fn spec_bytes_repr(s: Seq<u8>) -> Seq<char> {
    "["@ + spec_bytes_items(s) + "]"@
}

proof fn lemma_items_snoc(s: Seq<u8>, x: u8)
    ensures
        spec_bytes_items(s.push(x)) == if s.len() == 0 {
            spec_u8_dec(x)
        } else {
            spec_bytes_items(s) + ", "@ + spec_u8_dec(x)
        },
    decreases s.len(),
{
    if s.len() == 0 {
        assert(s.push(x)[0] == x);
        assert(spec_bytes_items(s.push(x)) =~= spec_u8_dec(x));
    } else {
        assert(s.push(x)[0] == s[0]);
        assert(s.push(x).skip(1) =~= s.skip(1).push(x));
        lemma_items_snoc(s.skip(1), x);
        if s.len() == 1 {
            assert(spec_bytes_items(s.push(x)) =~= spec_bytes_items(s) + ", "@ + spec_u8_dec(x));
        } else {
            assert(spec_bytes_items(s.push(x)) =~= spec_bytes_items(s) + ", "@ + spec_u8_dec(x));
        }
    }
}

/// Render the bytes a read returned, as a decimal list in brackets.
pub fn bytes_repr(v: &Vec<u8>) -> (r: String)
    ensures
        r@ == spec_bytes_repr(v@),
{
    let mut out = "[".to_owned();
    let mut i: usize = 0;
    while i < v.len()
        invariant
            0 <= i <= v@.len(),
            out@ == "["@ + spec_bytes_items(v@.take(i as int)),
        decreases v@.len() - i,
    {
        if i > 0 {
            out.append(", ");
        }
        let d = dec_u8(v[i]);
        out.append(d.as_str());
        proof {
            lemma_items_snoc(v@.take(i as int), v@[i as int]);
            assert(v@.take(i + 1) =~= v@.take(i as int).push(v@[i as int]));
            if i == 0 {
                assert(v@.take(0) =~= Seq::<u8>::empty());
            }
            assert(out@ =~= "["@ + spec_bytes_items(v@.take(i + 1)));
        }
        i = i + 1;
    }
    proof {
        assert(v@.take(v@.len() as int) =~= v@);
    }
    out.append("]");
    out
}

} // verus!
