//! An approximate location from the system timezone: the zone name comes
//! from `TZ`, the `/etc/localtime` link or `/etc/timezone`, and its
//! representative coordinate from an IANA `zone.tab` table. The files are
//! read by the caller; here is the parsing, which degrades to `None` on
//! anything malformed.
//!
//! A packed ISO 6709 angle such as `+4101` or `-0740023` is kept exactly as
//! written (sign, degrees, minutes, seconds); its value in degrees is
//! `sign * (degrees + minutes / 60 + seconds / 3600)`.

use vstd::prelude::*;

use crate::number::{all_digits, digits_only, parse_u32_chars, parse_u32_spec};
use crate::text::{
    chars_of, find, lines, lines_of, same_chars, slice, split, split_chars, starts_with, string_of,
    trim, trim_chars, views,
};

verus! {

broadcast use vstd::string::group_string_axioms;

/// One packed ISO 6709 angle, exactly as written.
#[derive(Clone, Copy, Debug, PartialEq, Eq, Structural)]
pub struct Angle {
    /// Whether the sign was `-`.
    pub negative: bool,
    pub degrees: u32,
    pub minutes: u32,
    pub seconds: u32,
}

/// A coordinate pair from a `zone.tab` line.
#[derive(Clone, Copy, Debug, PartialEq, Eq, Structural)]
pub struct Coordinate {
    pub latitude: Angle,
    pub longitude: Angle,
}

impl Angle {
    /// The angle in seconds of arc, signed.
    pub open spec fn arcseconds(self) -> int {
        let magnitude = self.degrees * 3600 + self.minutes * 60 + self.seconds;
        if self.negative {
            -magnitude
        } else {
            magnitude
        }
    }
}

/// A sign character of ISO 6709.
pub open spec fn is_sign(c: char) -> bool {
    c == '+' || c == '-'
}

/// One signed, packed angle: a sign, then `deg_digits` digits of degrees,
/// two of minutes and optionally two of seconds.
pub open spec fn spec_parse_angle(s: Seq<char>, deg_digits: int) -> Option<Angle> {
    if s.len() == 0 || !is_sign(s[0]) {
        None
    } else {
        let d = s.drop_first();
        if !all_digits(d) {
            None
        } else if d.len() != deg_digits + 2 && d.len() != deg_digits + 4 {
            None
        } else {
            let has_seconds = d.len() != deg_digits + 2;
            let deg = parse_u32_spec(d.take(deg_digits));
            let min = parse_u32_spec(d.subrange(deg_digits, deg_digits + 2));
            let sec = if has_seconds {
                parse_u32_spec(d.subrange(deg_digits + 2, deg_digits + 4))
            } else {
                Some(0u32)
            };
            if deg is Some && min is Some && sec is Some {
                Some(
                    Angle {
                        negative: s[0] == '-',
                        degrees: deg.unwrap(),
                        minutes: min.unwrap(),
                        seconds: sec.unwrap(),
                    },
                )
            } else {
                None
            }
        }
    }
}

/// The first sign at or after `i`.
pub open spec fn sign_from(s: Seq<char>, i: int) -> Option<int>
    decreases s.len() - i,
{
    if i < 0 || i >= s.len() {
        None
    } else if is_sign(s[i]) {
        Some(i)
    } else {
        sign_from(s, i + 1)
    }
}

/// A packed coordinate pair such as `+4101+02858`: the latitude, then the
/// longitude from the second sign on.
pub open spec fn spec_parse_coordinates(s: Seq<char>) -> Option<Coordinate> {
    if s.len() == 0 || !is_sign(s[0]) {
        None
    } else {
        match sign_from(s, 1) {
            Some(split) => {
                let lat = spec_parse_angle(s.take(split), 2);
                let lon = spec_parse_angle(s.skip(split), 3);
                if lat is Some && lon is Some {
                    Some(Coordinate { latitude: lat.unwrap(), longitude: lon.unwrap() })
                } else {
                    None
                }
            },
            None => None,
        }
    }
}

/// The coordinate of `zone` in the remaining lines of a `zone.tab` table:
/// comment lines are skipped, and so are lines without three tab-separated
/// fields; the first line naming the zone decides.
pub open spec fn zone_lookup(ls: Seq<Seq<char>>, zone: Seq<char>) -> Option<Coordinate>
    decreases ls.len(),
{
    if ls.len() == 0 {
        None
    } else {
        let line = ls[0];
        let fields = split(line, '\t');
        if starts_with(line, seq!['#']) {
            zone_lookup(ls.drop_first(), zone)
        } else if fields.len() >= 3 && fields[2] == zone {
            spec_parse_coordinates(fields[1])
        } else {
            zone_lookup(ls.drop_first(), zone)
        }
    }
}

/// The `zoneinfo/` marker of a zone path.
pub open spec fn zoneinfo_marker() -> Seq<char> {
    seq!['z', 'o', 'n', 'e', 'i', 'n', 'f', 'o', '/']
}

/// A zone name from a `TZ` value: a leading colon dropped, and of a full
/// path only what follows `zoneinfo/`; nothing when that is empty.
pub open spec fn spec_zone_from_tz_value(value: Seq<char>) -> Option<Seq<char>> {
    let v = if value.len() > 0 && value[0] == ':' {
        value.drop_first()
    } else {
        value
    };
    let name = match find(v, zoneinfo_marker()) {
        Some(i) => v.skip(i + 9),
        None => v,
    };
    if name.len() > 0 {
        Some(name)
    } else {
        None
    }
}

/// A zone name from the target of the `/etc/localtime` link: what follows
/// `zoneinfo/`, when the link has that and it is not empty.
pub open spec fn spec_zone_from_link_target(target: Seq<char>) -> Option<Seq<char>> {
    match find(target, zoneinfo_marker()) {
        Some(i) => if target.skip(i + 9).len() > 0 {
            Some(target.skip(i + 9))
        } else {
            None
        },
        None => None,
    }
}

/// A zone name from the text of `/etc/timezone`: the trimmed contents, when
/// not empty.
pub open spec fn spec_zone_from_timezone_file(contents: Seq<char>) -> Option<Seq<char>> {
    if trim(contents).len() > 0 {
        Some(trim(contents))
    } else {
        None
    }
}

/// The view of an optional string.
pub open spec fn view_opt(s: Option<String>) -> Option<Seq<char>> {
    match s {
        Some(v) => Some(v@),
        None => None,
    }
}

/// Parses one signed, packed ISO 6709 angle such as `+4101` or `-0740023`.
/// `deg_digits` is 2 for a latitude (`DDMM[SS]`) and 3 for a longitude
/// (`DDDMM[SS]`). `None` when the text is malformed.
pub fn parse_angle(s: &str, deg_digits: usize) -> (r: Option<Angle>)
    requires
        deg_digits <= usize::MAX - 4,
    ensures
        r == spec_parse_angle(s@, deg_digits as int),
{
    let v = chars_of(s);
    parse_angle_chars(&v, deg_digits)
}

/// [`parse_angle`] over characters.
pub fn parse_angle_chars(s: &Vec<char>, deg_digits: usize) -> (r: Option<Angle>)
    requires
        deg_digits <= usize::MAX - 4,
    ensures
        r == spec_parse_angle(s@, deg_digits as int),
{
    if s.len() == 0 || !(s[0] == '+' || s[0] == '-') {
        return None;
    }
    let d = slice(s, 1, s.len());
    assert(d@ == s@.drop_first());
    if !digits_only(&d) {
        return None;
    }
    if d.len() != deg_digits + 2 && d.len() != deg_digits + 4 {
        return None;
    }
    let has_seconds = d.len() != deg_digits + 2;
    let deg_text = slice(&d, 0, deg_digits);
    assert(deg_text@ == d@.take(deg_digits as int));
    let min_text = slice(&d, deg_digits, deg_digits + 2);
    let deg = parse_u32_chars(&deg_text);
    let min = parse_u32_chars(&min_text);
    let sec = if has_seconds {
        let sec_text = slice(&d, deg_digits + 2, deg_digits + 4);
        parse_u32_chars(&sec_text)
    } else {
        Some(0)
    };
    match (deg, min, sec) {
        (Some(degrees), Some(minutes), Some(seconds)) => Some(
            Angle { negative: s[0] == '-', degrees, minutes, seconds },
        ),
        _ => None,
    }
}

/// Parses a packed ISO 6709 pair such as `+4101+02858`, latitude then
/// longitude with no separator.
pub fn parse_coordinates(s: &str) -> (r: Option<Coordinate>)
    ensures
        r == spec_parse_coordinates(s@),
{
    let v = chars_of(s);
    parse_coordinates_chars(&v)
}

/// [`parse_coordinates`] over characters.
pub fn parse_coordinates_chars(s: &Vec<char>) -> (r: Option<Coordinate>)
    ensures
        r == spec_parse_coordinates(s@),
{
    if s.len() == 0 || !(s[0] == '+' || s[0] == '-') {
        return None;
    }
    let mut i: usize = 1;
    while i < s.len() && !(s[i] == '+' || s[i] == '-')
        invariant
            1 <= i <= s.len(),
            sign_from(s@, 1) == sign_from(s@, i as int),
        decreases s.len() - i,
    {
        i = i + 1;
    }
    if i == s.len() {
        return None;
    }
    let lat_text = slice(s, 0, i);
    let lon_text = slice(s, i, s.len());
    assert(lat_text@ == s@.take(i as int));
    assert(lon_text@ == s@.skip(i as int));
    let lat = parse_angle_chars(&lat_text, 2);
    let lon = parse_angle_chars(&lon_text, 3);
    match (lat, lon) {
        (Some(latitude), Some(longitude)) => Some(Coordinate { latitude, longitude }),
        _ => None,
    }
}

/// Looks up an IANA zone name in the text of a `zone.tab`-style file. Lines
/// are tab-separated (country codes, coordinate, zone name, optional
/// comment); lines beginning with `#` are comments, and lines with fewer
/// than three fields are skipped rather than ending the search.
pub fn coordinate_from_zone_tab(contents: &str, zone: &str) -> (r: Option<Coordinate>)
    ensures
        r == zone_lookup(lines(contents@), zone@),
{
    let text = chars_of(contents);
    let wanted = chars_of(zone);
    let all = lines_of(&text);
    let mut k: usize = 0;
    assert(views(all@).skip(0) == views(all@));
    while k < all.len()
        invariant
            k <= all.len(),
            wanted@ == zone@,
            views(all@) == lines(contents@),
            zone_lookup(lines(contents@), zone@) == zone_lookup(
                views(all@).skip(k as int),
                zone@,
            ),
        decreases all.len() - k,
    {
        let ghost rest = views(all@).skip(k as int);
        assert(rest.drop_first() == views(all@).skip(k + 1));
        assert(rest[0] == all@[k as int]@);
        let line = &all[k];
        let is_comment = line.len() > 0 && line[0] == '#';
        proof {
            if line@.len() > 0 {
                if line@[0] == '#' {
                    assert(line@.take(1) =~= seq!['#']);
                } else {
                    assert(line@.take(1)[0] != seq!['#'][0]);
                }
            }
        }
        if !is_comment {
            let fields = split_chars(line, '\t');
            if fields.len() >= 3 {
                assert(fields@[2]@ == views(fields@)[2]);
                assert(fields@[1]@ == views(fields@)[1]);
                if same_chars(&fields[2], &wanted) {
                    return parse_coordinates_chars(&fields[1]);
                }
            }
        }
        k = k + 1;
    }
    None
}

/// Extracts an IANA zone name from a `TZ` value, e.g. `Europe/Istanbul`,
/// `:Europe/Istanbul` or `:/usr/share/zoneinfo/Europe/Istanbul`; `None` when
/// nothing is left.
pub fn zone_from_tz_value(value: &str) -> (r: Option<String>)
    ensures
        view_opt(r) == spec_zone_from_tz_value(value@),
{
    let all = chars_of(value);
    let v = if all.len() > 0 && all[0] == ':' {
        slice(&all, 1, all.len())
    } else {
        all
    };
    let marker = vec!['z', 'o', 'n', 'e', 'i', 'n', 'f', 'o', '/'];
    let name = match crate::text::find_chars(&v, &marker) {
        Some(i) => slice(&v, i + 9, v.len()),
        None => v,
    };
    if name.len() > 0 {
        Some(string_of(&name))
    } else {
        None
    }
}

/// The zone name in the target of the `/etc/localtime` link.
pub fn zone_from_link_target(target: &str) -> (r: Option<String>)
    ensures
        view_opt(r) == spec_zone_from_link_target(target@),
{
    let t = chars_of(target);
    let marker = vec!['z', 'o', 'n', 'e', 'i', 'n', 'f', 'o', '/'];
    let n = t.len();
    let found = crate::text::find_chars(&t, &marker);
    match found {
        Some(i) => {
            assert(i + 9 <= n);
            let name = slice(&t, i + 9, n);
            if name.len() > 0 {
                Some(string_of(&name))
            } else {
                None
            }
        },
        None => None,
    }
}

/// The zone name stored as plain text in `/etc/timezone`.
pub fn zone_from_timezone_file(contents: &str) -> (r: Option<String>)
    ensures
        view_opt(r) == spec_zone_from_timezone_file(contents@),
{
    let name = trim_chars(&chars_of(contents));
    if name.len() > 0 {
        Some(string_of(&name))
    } else {
        None
    }
}

/// The system's zone name from the three places it may be kept, in order:
/// the `TZ` value, the `/etc/localtime` link target, the `/etc/timezone`
/// text. The first that yields a name decides.
pub fn zone_name(tz: Option<&str>, localtime_target: Option<&str>, timezone_file: Option<&str>) -> (r:
    Option<String>)
    ensures
        view_opt(r) == (match tz {
            Some(t) if spec_zone_from_tz_value(t@) is Some => spec_zone_from_tz_value(t@),
            _ => match localtime_target {
                Some(l) if spec_zone_from_link_target(l@) is Some => spec_zone_from_link_target(
                    l@,
                ),
                _ => match timezone_file {
                    Some(f) => spec_zone_from_timezone_file(f@),
                    None => None,
                },
            },
        }),
{
    if let Some(t) = tz {
        let found = zone_from_tz_value(t);
        if found.is_some() {
            return found;
        }
    }
    if let Some(l) = localtime_target {
        let found = zone_from_link_target(l);
        if found.is_some() {
            return found;
        }
    }
    match timezone_file {
        Some(f) => zone_from_timezone_file(f),
        None => None,
    }
}

/// `n` written in exactly `width` decimal digits, zero-padded (the low
/// `width` digits when `n` is wider).
pub open spec fn digits_of(n: nat, width: nat) -> Seq<char>
    decreases width,
{
    if width == 0 {
        Seq::empty()
    } else {
        digits_of(n / 10, (width - 1) as nat) + seq![crate::text::digit_char((n % 10) as int)]
    }
}

/// An angle written the ISO 6709 way: its sign, then its degrees in
/// `deg_digits` digits, its minutes in two and, when given, its seconds in
/// two.
pub open spec fn packed(a: Angle, deg_digits: nat, with_seconds: bool) -> Seq<char> {
    seq![if a.negative { '-' } else { '+' }] + digits_of(a.degrees as nat, deg_digits) + digits_of(
        a.minutes as nat,
        2,
    ) + if with_seconds {
        digits_of(a.seconds as nat, 2)
    } else {
        Seq::empty()
    }
}

/// Digits read as a number and written back in as many digits are the
/// same digits.
proof fn lemma_digits_round_trip(d: Seq<char>)
    requires
        all_digits(d),
    ensures
        digits_of(crate::number::digits_value(d), d.len()) == d,
    decreases d.len(),
{
    if d.len() > 0 {
        let rest = d.drop_last();
        assert(all_digits(rest)) by {
            assert forall|i: int| 0 <= i < rest.len() implies crate::number::is_digit(#[trigger] rest[i]) by {
                assert(rest[i] == d[i]);
            }
        }
        lemma_digits_round_trip(rest);
        let c: int = d.last() as int - 48;
        assert(crate::number::is_digit(d[d.len() - 1]));
        assert(0 <= c < 10);
        let v = crate::number::digits_value(d);
        let w = crate::number::digits_value(rest);
        assert(v == w * 10 + c);
        assert(v % 10 == c && v / 10 == w) by (nonlinear_arith)
            requires
                v == w * 10 + c,
                0 <= c < 10,
                w >= 0,
        ;
        assert(crate::text::digit_char(c) == d.last());
        assert(d =~= rest + seq![d.last()]);
    }
}

/// A digit string with no `+` reads as `u32::from_str` reads it: its value.
proof fn lemma_digits_parse(d: Seq<char>)
    requires
        all_digits(d),
        parse_u32_spec(d) is Some,
    ensures
        parse_u32_spec(d).unwrap() as nat == crate::number::digits_value(d),
        d.len() > 0,
{
    assert(d.len() > 0 ==> d[0] != '+' && crate::number::is_digit(d[0]));
}

/// Whatever a packed angle reads as, written back, is the text it was read
/// from: the sign as written, then the degrees, minutes and seconds digit
/// for digit.
pub proof fn lemma_an_angle_reads_as_written(s: Seq<char>, deg_digits: nat)
    requires
        spec_parse_angle(s, deg_digits as int) is Some,
    ensures
        s == packed(spec_parse_angle(s, deg_digits as int).unwrap(), deg_digits, s.len() == deg_digits + 5),
        spec_parse_angle(s, deg_digits as int).unwrap().negative <==> s[0] == '-',
{
    let a = spec_parse_angle(s, deg_digits as int).unwrap();
    let k = deg_digits as int;
    let d = s.drop_first();
    let dd = d.take(k);
    let mm = d.subrange(k, k + 2);
    assert forall|i: int| 0 <= i < dd.len() implies crate::number::is_digit(#[trigger] dd[i]) by {
        assert(dd[i] == d[i]);
    }
    assert forall|i: int| 0 <= i < mm.len() implies crate::number::is_digit(#[trigger] mm[i]) by {
        assert(mm[i] == d[k + i]);
    }
    lemma_digits_parse(dd);
    lemma_digits_parse(mm);
    lemma_digits_round_trip(dd);
    lemma_digits_round_trip(mm);
    let sign = seq![if a.negative { '-' } else { '+' }];
    assert(sign =~= s.take(1));
    if s.len() == deg_digits + 5 {
        let ss = d.subrange(k + 2, k + 4);
        assert forall|i: int| 0 <= i < ss.len() implies crate::number::is_digit(#[trigger] ss[i]) by {
            assert(ss[i] == d[k + 2 + i]);
        }
        lemma_digits_parse(ss);
        lemma_digits_round_trip(ss);
        assert(s =~= sign + dd + mm + ss);
    } else {
        assert(s =~= sign + dd + mm + Seq::<char>::empty());
    }
}

/// A sign found from `i` on lies at or after `i`, inside the text.
proof fn lemma_sign_from_bounds(s: Seq<char>, i: int)
    ensures
        sign_from(s, i) matches Some(k) ==> i <= k < s.len() && is_sign(s[k]),
    decreases s.len() - i,
{
    if 0 <= i < s.len() && !is_sign(s[i]) {
        lemma_sign_from_bounds(s, i + 1);
    }
}

/// A coordinate keeps the signs and digits written: the latitude is
/// negative exactly when the text starts with `-` (south), and the text is
/// the latitude written with two degree digits followed by the longitude
/// written with three.
pub proof fn lemma_a_coordinate_reads_as_written(s: Seq<char>)
    requires
        spec_parse_coordinates(s) is Some,
    ensures
        ({
            let c = spec_parse_coordinates(s).unwrap();
            &&& c.latitude.negative <==> s[0] == '-'
            &&& exists|lat_seconds: bool, lon_seconds: bool| s == packed(c.latitude, 2, lat_seconds) + packed(
                c.longitude,
                3,
                lon_seconds,
            )
        }),
{
    let c = spec_parse_coordinates(s).unwrap();
    let split = sign_from(s, 1).unwrap();
    lemma_sign_from_bounds(s, 1);
    lemma_an_angle_reads_as_written(s.take(split), 2);
    lemma_an_angle_reads_as_written(s.skip(split), 3);
    assert(s.take(split)[0] == s[0]);
    assert(s =~= s.take(split) + s.skip(split));
    let a = s.take(split).len() == 7;
    let b = s.skip(split).len() == 8;
    assert(s == packed(c.latitude, 2, a) + packed(c.longitude, 3, b));
}

/// In particular, a latitude written with `-` lies south of the equator
/// (or on it): its signed value is never positive.
pub proof fn lemma_a_southern_latitude_is_south(s: Seq<char>)
    requires
        spec_parse_coordinates(s) is Some,
        s[0] == '-',
    ensures
        spec_parse_coordinates(s).unwrap().latitude.arcseconds() <= 0,
{
    lemma_a_coordinate_reads_as_written(s);
}

} // verus!
