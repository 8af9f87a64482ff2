//! Choosing colours from numeric attribute values, and the texts of a core or a router.

use vstd::prelude::*;
use std::collections::BTreeMap;
use crate::arith::{clamp_i32, sat_add};
use crate::geometry::CoordinateT;
use crate::information_layer::{ProcessingInformation, FONT_SIZE_WITH_OFFSET, OFFSET_FROM_BORDER, TEXT_GROUP_FILTER};
use crate::information_layer::text_information::{TextInformation, TextModel, models, attribute_text, fill_seq, labelled};
use crate::render_settings::{FieldConfiguration, FieldConfigurations, FieldKeys, FontSize, ProcessedBaseConfiguration, str_eq};
use crate::system::{attr_get, find_attribute};
use crate::text::{nat_str, push_nat, push_str};
use crate::connections_group::{ConnectionType, ConnectionsParentGroup, DirectionType, no_connection_message, no_connections_message};
use crate::error::{SVGError, SVGErrorKind};

verus! {

/// Where the binary search over the four bounds stops: the first index between `l` and
/// `r` whose bound is at least `val`, as the search narrows it (`l` once the range is empty).
pub open spec fn search_lower(b: Seq<u64>, val: u64, l: int, r: int) -> int
    decreases r - l + 1,
{
    if 0 <= l && l <= r && r < 4 {
        let m = l + (r - l) / 2;
        if b[m] >= val {
            search_lower(b, val, l, m - 1)
        } else {
            search_lower(b, val, m + 1, r)
        }
    } else {
        l
    }
}

/// The index the colour search returns for `val`: the insertion point the search finds,
/// kept within the four bounds, and moved one down when its bound exceeds `val`, except
/// that a value strictly between the first two bounds keeps the second index.
pub open spec fn insertion_point(b: Seq<u64>, val: u64) -> int {
    let l = search_lower(b, val, 0, 3);
    let cl = if l > 3 { 3 } else if l < 0 { 0 } else { l };
    if cl > 0 && b[cl] > val {
        if cl == 1 && b[0] < val { 1 } else { cl - 1 }
    } else {
        cl
    }
}

/// The bounds are in non-decreasing order.
pub open spec fn sorted4(b: Seq<u64>) -> bool {
    b.len() == 4 && b[0] <= b[1] && b[1] <= b[2] && b[2] <= b[3]
}

/// How many bounds are below `val`.
pub open spec fn count_below(b: Seq<u64>, val: u64) -> int {
    (if b[0] < val { 1int } else { 0int }) + (if b[1] < val { 1int } else { 0int })
        + (if b[2] < val { 1int } else { 0int }) + (if b[3] < val { 1int } else { 0int })
}

/// The colour index of `val` for sorted bounds, as the colour table documents it
/// (bounds `[10, 20, 30, 40]`: `9` takes the first colour, `11` the second, `35` the
/// third, `50` the fourth): a value equal to a bound takes the colour of the first such
/// bound; a value strictly between the first two bounds takes the second colour; any
/// other value takes the colour of the last bound below it, or the first colour when it
/// is below every bound.
pub open spec fn colour_index(b: Seq<u64>, val: u64) -> int {
    let lb = count_below(b, val);
    if lb == 1 && b[1] > val {
        1
    } else if lb < 4 && b[lb] == val {
        lb
    } else if lb == 0 {
        0
    } else {
        lb - 1
    }
}

/// For bounds in non-decreasing order, the search returns the colour index of the
/// documented colour table.
pub proof fn law_colour_of_sorted_bounds(b: Seq<u64>, val: u64)
    requires
        sorted4(b),
    ensures
        insertion_point(b, val) == colour_index(b, val),
        0 <= insertion_point(b, val) < 4,
        insertion_point(b, val) > 1 ==> b[insertion_point(b, val)] <= val,
{
    reveal_with_fuel(search_lower, 4);
}

/// Index of the colour for `val` among the four bounds.
pub fn binary_search_left_insertion_point(bounds: &[u64; 4], val: u64) -> (r: usize)
    ensures
        r as int == insertion_point(bounds@, val),
        r < 4,
{
    let mut l: i8 = 0;
    let max: i8 = 3;
    let mut r: i8 = max;
    while l <= r
        invariant
            0 <= l <= 4,
            -1 <= r <= 3,
            l <= r + 1,
            search_lower(bounds@, val, l as int, r as int) == search_lower(bounds@, val, 0, 3),
        decreases r - l + 1,
    {
        let m = l + (r - l) / 2;
        let bound = bounds[m as usize];
        if bound >= val {
            r = m - 1;
        } else {
            l = m + 1;
        }
    }
    let corrected_l: usize = if l > max { max as usize } else if l < 0 { 0 } else { l as usize };
    if corrected_l > 0 && bounds[corrected_l] > val {
        if corrected_l == 1 && bounds[0] < val { 1 } else { corrected_l - 1 }
    } else {
        corrected_l
    }
}

/// Numeric value of a decimal digit character.
pub open spec fn digit_value(c: char) -> nat {
    (c as int - '0' as int) as nat
}

/// Whether `c` is a decimal digit.
pub open spec fn is_digit(c: char) -> bool {
    '0' <= c && c <= '9'
}

/// Value of a sequence of decimal digits.
pub open spec fn digits_value(s: Seq<char>) -> nat
    decreases s.len(),
{
    if s.len() == 0 {
        0
    } else {
        digits_value(s.drop_last()) * 10 + digit_value(s.last())
    }
}

/// `s` without its leading `+`, if any.
pub open spec fn unsigned_digits(s: Seq<char>) -> Seq<char> {
    if s.len() > 0 && s[0] == '+' { s.drop_first() } else { s }
}

/// Every character of `d` is a decimal digit.
pub open spec fn all_digits(d: Seq<char>) -> bool {
    forall|i: int| 0 <= i < d.len() ==> is_digit(#[trigger] d[i])
}

/// What parsing `s` as a `u64` gives (std's `u64::from_str`): an optional `+` followed by
/// at least one decimal digit, whose value fits in a `u64`.
pub open spec fn parse_u64_spec(s: Seq<char>) -> Option<u64> {
    let d = unsigned_digits(s);
    if d.len() > 0 && all_digits(d) && digits_value(d) <= u64::MAX {
        Some(digits_value(d) as u64)
    } else {
        None
    }
}

proof fn lemma_digits_value_prefix(s: Seq<char>, k: int)
    requires
        0 <= k <= s.len(),
    ensures
        digits_value(s.take(k)) <= digits_value(s),
    decreases s.len(),
{
    if k < s.len() {
        assert(s.drop_last().take(k) =~= s.take(k));
        lemma_digits_value_prefix(s.drop_last(), k);
    } else {
        assert(s.take(k) =~= s);
    }
}

/// Parses a decimal `u64` (std's `str::parse::<u64>`).
pub fn parse_u64(s: &str) -> (r: Option<u64>)
    ensures
        r == parse_u64_spec(s@),
{
    let n = s.unicode_len();
    let mut start: usize = 0;
    if n > 0 && s.get_char(0) == '+' {
        start = 1;
    }
    let ghost d = unsigned_digits(s@);
    if start >= n {
        return None;
    }
    let mut acc: u64 = 0;
    let mut i: usize = start;
    proof {
        assert(d =~= s@.subrange(start as int, n as int));
        assert(d.take(0) =~= Seq::<char>::empty());
    }
    while i < n
        invariant
            n == s@.len(),
            start <= i <= n,
            start < n,
            d == s@.subrange(start as int, n as int),
            d == unsigned_digits(s@),
            forall|j: int| 0 <= j < i - start ==> is_digit(#[trigger] d[j]),
            acc as nat == digits_value(d.take(i - start)),
        decreases n - i,
    {
        let c = s.get_char(i);
        if !('0' <= c && c <= '9') {
            proof {
                assert(d[i - start] == c);
                assert(!is_digit(d[i - start]));
                assert(!all_digits(d));
            }
            return None;
        }
        let dv: u64 = (c as u32 - '0' as u32) as u64;
        proof {
            assert(d[i - start] == c);
            assert(dv as nat == digit_value(c));
            assert(d.take(i - start + 1).drop_last() =~= d.take(i - start));
            assert(d.take(i - start + 1).last() == c);
            assert(digits_value(d.take(i - start + 1)) == acc * 10 + dv);
        }
        match acc.checked_mul(10) {
            Some(t) => match t.checked_add(dv) {
                Some(v) => {
                    acc = v;
                },
                None => {
                    proof {
                        lemma_digits_value_prefix(d, i - start + 1);
                    }
                    return None;
                },
            },
            None => {
                proof {
                    lemma_digits_value_prefix(d, i - start + 1);
                }
                return None;
            },
        }
        i = i + 1;
    }
    proof {
        assert(d.take(n - start) =~= d);
    }
    Some(acc)
}

/// The colour of an attribute value: when the value parses as a `u64`, the colour of
/// its bound; otherwise none.
pub fn get_attribute_colour<'a>(bounds: &'a [u64; 4], colours: &'a [String; 4], attribute_value: &'a String) -> (r: Option<&'a String>)
    ensures
        match parse_u64_spec(attribute_value@) {
            Some(v) => r == Some(&colours@[insertion_point(bounds@, v)]),
            None => r.is_none(),
        },
{
    let mut fill: Option<&String> = None;
    if let Some(value_num) = parse_u64(attribute_value.as_str()) {
        let fill_idx = binary_search_left_insertion_point(bounds, value_num);
        fill = Some(&colours[fill_idx]);
    }
    fill
}


/// `key` is reserved: the element id or the coordinates, which are shown otherwise.
pub open spec fn is_reserved(key: Seq<char>, keys: FieldKeys) -> bool {
    key == keys.id@ || key == keys.coordinates@
}

/// The line (fill and text) that a configured attribute adds: for a (coloured) text
/// configuration of an attribute that the element has, `"<label>: <value>"`.
pub open spec fn entry_line(entry: (String, FieldConfiguration), attrs: Seq<(String, String)>, keys: FieldKeys) -> Option<(Seq<char>, Seq<char>)> {
    if is_reserved(entry.0@, keys) {
        None
    } else {
        match attr_get(attrs, entry.0@) {
            Some(v) => match entry.1 {
                FieldConfiguration::Text { .. } | FieldConfiguration::ColouredText { .. } =>
                    Some((fill_seq(attribute_text(entry.1, v).0), attribute_text(entry.1, v).1)),
                _ => None,
            },
            None => None,
        }
    }
}

/// The fill colour that a configured attribute gives the element: for a fill
/// configuration of an attribute that the element has with a numeric value, the colour
/// of that value.
pub open spec fn entry_fill(entry: (String, FieldConfiguration), attrs: Seq<(String, String)>, keys: FieldKeys) -> Option<Seq<char>> {
    if is_reserved(entry.0@, keys) {
        None
    } else {
        match (attr_get(attrs, entry.0@), entry.1) {
            (Some(v), FieldConfiguration::Fill { colour_settings }) => match parse_u64_spec(v) {
                Some(n) => Some(colour_settings.colours@[insertion_point(colour_settings.bounds@, n)]@),
                None => None,
            },
            _ => None,
        }
    }
}

/// The lines that the configured attributes add, in configuration order.
pub open spec fn attribute_lines(entries: Seq<(String, FieldConfiguration)>, attrs: Seq<(String, String)>, keys: FieldKeys) -> Seq<(Seq<char>, Seq<char>)>
    decreases entries.len(),
{
    if entries.len() == 0 {
        Seq::empty()
    } else {
        let prev = attribute_lines(entries.drop_last(), attrs, keys);
        match entry_line(entries.last(), attrs, keys) {
            Some(l) => prev.push(l),
            None => prev,
        }
    }
}

/// The CSS rule that fills the element with id `selector`.
pub open spec fn fill_rule(selector: Seq<char>, colour: Seq<char>) -> Seq<char> {
    "\n#"@ + selector + " {fill: "@ + colour + ";}"@
}

/// The CSS rules that the configured fills add, in configuration order.
pub open spec fn fill_rules(entries: Seq<(String, FieldConfiguration)>, attrs: Seq<(String, String)>, keys: FieldKeys, selector: Seq<char>) -> Seq<char>
    decreases entries.len(),
{
    if entries.len() == 0 {
        Seq::empty()
    } else {
        let prev = fill_rules(entries.drop_last(), attrs, keys, selector);
        match entry_fill(entries.last(), attrs, keys) {
            Some(c) => prev + fill_rule(selector, c),
            None => prev,
        }
    }
}

/// Some configured fill applies to the element.
pub open spec fn has_fill(entries: Seq<(String, FieldConfiguration)>, attrs: Seq<(String, String)>, keys: FieldKeys) -> bool
    decreases entries.len(),
{
    if entries.len() == 0 {
        false
    } else {
        has_fill(entries.drop_last(), attrs, keys) || entry_fill(entries.last(), attrs, keys) is Some
    }
}

/// The line of the element id: present when the id is configured as text.
pub open spec fn id_lines(configuration: FieldConfigurations, id: u8, keys: FieldKeys) -> Seq<(Seq<char>, Seq<char>)> {
    match configuration.spec_get(keys.id@) {
        Some(FieldConfiguration::Text { display, .. }) => seq![("black"@, display@ + ": "@ + nat_str(id as nat))],
        _ => Seq::empty(),
    }
}

/// The fill chosen for element `id` by the user, if any.
pub open spec fn fill_override(fills: Map<u8, String>, id: u8) -> Option<Seq<char>> {
    if fills.contains_key(id) {
        Some(fills[id]@)
    } else {
        None
    }
}

/// Every line of an element: its id, then its configured attributes.
pub open spec fn information_lines(configuration: FieldConfigurations, id: u8, attrs: Seq<(String, String)>, keys: FieldKeys) -> Seq<(Seq<char>, Seq<char>)> {
    id_lines(configuration, id, keys) + attribute_lines(configuration.entries@, attrs, keys)
}

/// Line `k` of a group whose first line is one unit inside `(x, y)`, lines 18 units apart.
pub open spec fn line_model(x: int, y: int, k: int, line: (Seq<char>, Seq<char>), font_size: FontSize, text_anchor: &'static str) -> TextModel {
    TextModel {
        x: clamp_i32(x + OFFSET_FROM_BORDER) as i32,
        y: clamp_i32(y + OFFSET_FROM_BORDER + FONT_SIZE_WITH_OFFSET * k) as i32,
        font_size,
        text_anchor,
        dominant_baseline: "text-before-edge",
        fill: line.0,
        class: None,
        value: line.1,
    }
}

/// The user's fill for element `id`, if any.
pub fn find_fill(fills: &BTreeMap<u8, String>, id: u8) -> (r: Option<&String>)
    ensures
        match r {
            Some(c) => fill_override(fills@, id) == Some(c@),
            None => fill_override(fills@, id) is None,
        },
{
    fills.get(&id)
}

fn push_fill_rule(css: &mut String, variant: &str, id: u8, colour: &String)
    ensures
        final(css)@ == old(css)@ + fill_rule(variant@ + nat_str(id as nat), colour@),
{
    push_str(css, "\n#");
    push_str(css, variant);
    push_nat(css, id as u64);
    push_str(css, " {fill: ");
    push_str(css, colour.as_str());
    push_str(css, ";}");
    proof {
        assert(css@ =~= old(css)@ + fill_rule(variant@ + nat_str(id as nat), colour@));
    }
}

/// Adds the texts of a core or router (`id`, its id prefix `variant`, its attributes)
/// to `group`, whose element is drawn from `(base_x, base_y)`: the id when configured
/// as text, then each configured (coloured) text attribute the element has, in
/// configuration order, a line each. Each configured fill that applies appends a CSS
/// rule filling the element, and so does the user's fill for `id` after them; either
/// puts the text background filter on the group.
pub fn generate_with_id(
    base_x: CoordinateT,
    base_y: CoordinateT,
    configuration: &FieldConfigurations,
    fills: &BTreeMap<u8, String>,
    id: u8,
    variant: &str,
    attributes: &Vec<(String, String)>,
    group: &mut ProcessingInformation,
    text_anchor: &'static str,
    css: &mut String,
    processed_base_configuration: &ProcessedBaseConfiguration,
    keys: &FieldKeys,
)
    requires
        configuration.wf(),
    ensures
        ({
            let lines = information_lines(*configuration, id, attributes@, *keys);
            let n = old(group).information@.len();
            &&& final(group).information@.len() == n + lines.len()
            &&& final(group).information@.subrange(0, n as int) == old(group).information@
            &&& forall|k: int| 0 <= k < lines.len() ==> models(#[trigger] final(group).information@[n + k],
                line_model(base_x as int, base_y as int, k, lines[k], processed_base_configuration.attribute_font_size, text_anchor))
        }),
        final(group).clip_path == old(group).clip_path,
        final(group).filter == (if has_fill(configuration.entries@, attributes@, *keys) || fill_override(fills@, id) is Some {
            Some(TEXT_GROUP_FILTER)
        } else {
            old(group).filter
        }),
        final(css)@ == old(css)@ + fill_rules(configuration.entries@, attributes@, *keys, variant@ + nat_str(id as nat))
            + match fill_override(fills@, id) {
                Some(c) => fill_rule(variant@ + nat_str(id as nat), c),
                None => Seq::empty(),
            },
{
    let ghost selector = variant@ + nat_str(id as nat);
    let ghost n = old(group).information@.len();
    let ghost entries = configuration.entries@;
    let font_size = processed_base_configuration.attribute_font_size;
    let x = sat_add(base_x, OFFSET_FROM_BORDER);
    let mut y = sat_add(base_y, OFFSET_FROM_BORDER);
    let ghost mut lines: Seq<(Seq<char>, Seq<char>)> = Seq::empty();
    match configuration.get(keys.id.as_str()) {
        Some(FieldConfiguration::Text { display, .. }) => {
            let mut value = labelled(display, &String::new());
            push_nat(&mut value, id as u64);
            group.information.push(TextInformation::new(x, y, font_size, text_anchor, "text-before-edge", None, None, value));
            proof {
                lines = lines.push(("black"@, display@ + ": "@ + nat_str(id as nat)));
                assert(lines =~= id_lines(*configuration, id, *keys));
            }
            y = sat_add(y, FONT_SIZE_WITH_OFFSET);
        },
        _ => {
            proof {
                assert(lines =~= id_lines(*configuration, id, *keys));
            }
        },
    }
    let mut i: usize = 0;
    proof {
        assert(entries.take(0) =~= Seq::<(String, FieldConfiguration)>::empty());
        assert(lines + attribute_lines(entries.take(0), attributes@, *keys) =~= lines);
        assert(group.information@.subrange(0, n as int) =~= old(group).information@);
        assert(css@ =~= old(css)@ + fill_rules(entries.take(0), attributes@, *keys, selector));
    }
    while i < configuration.entries.len()
        invariant
            i <= entries.len(),
            entries == configuration.entries@,
            selector == variant@ + nat_str(id as nat),
            n == old(group).information@.len(),
            font_size == processed_base_configuration.attribute_font_size,
            x as int == clamp_i32(base_x + OFFSET_FROM_BORDER),
            lines == id_lines(*configuration, id, *keys),
            ({
                let done = lines + attribute_lines(entries.take(i as int), attributes@, *keys);
                &&& group.information@.len() == n + done.len()
                &&& group.information@.subrange(0, n as int) == old(group).information@
                &&& forall|k: int| 0 <= k < done.len() ==> models(#[trigger] group.information@[n + k],
                    line_model(base_x as int, base_y as int, k, done[k], font_size, text_anchor))
                &&& y as int == clamp_i32(base_y + OFFSET_FROM_BORDER + FONT_SIZE_WITH_OFFSET * done.len())
            }),
            group.clip_path == old(group).clip_path,
            group.filter == (if has_fill(entries.take(i as int), attributes@, *keys) { Some(TEXT_GROUP_FILTER) } else { old(group).filter }),
            css@ == old(css)@ + fill_rules(entries.take(i as int), attributes@, *keys, selector),
        decreases entries.len() - i,
    {
        let ghost before = lines + attribute_lines(entries.take(i as int), attributes@, *keys);
        let ghost old_info = group.information@;
        proof {
            assert(entries.take(i + 1).drop_last() =~= entries.take(i as int));
            assert(entries.take(i + 1).last() == entries[i as int]);
        }
        let key = configuration.entries[i].0.as_str();
        if !str_eq(key, keys.id.as_str()) && !str_eq(key, keys.coordinates.as_str()) {
            match find_attribute(attributes, key) {
                Some(value) => {
                    match &configuration.entries[i].1 {
                        FieldConfiguration::Text { display, .. } => {
                            group.information.push(TextInformation::new(x, y, font_size, text_anchor, "text-before-edge", None, None, labelled(display, value)));
                            y = sat_add(y, FONT_SIZE_WITH_OFFSET);
                        },
                        FieldConfiguration::ColouredText { display, colour_settings } => {
                            let fill = get_attribute_colour(&colour_settings.bounds, &colour_settings.colours, value);
                            group.information.push(TextInformation::new(x, y, font_size, text_anchor, "text-before-edge", fill, None, labelled(display, value)));
                            y = sat_add(y, FONT_SIZE_WITH_OFFSET);
                        },
                        FieldConfiguration::Fill { colour_settings } => {
                            if let Some(value_num) = parse_u64(value.as_str()) {
                                let fill_idx = binary_search_left_insertion_point(&colour_settings.bounds, value_num);
                                push_fill_rule(css, variant, id, &colour_settings.colours[fill_idx]);
                                group.filter = Some(TEXT_GROUP_FILTER);
                            }
                        },
                        _ => {},
                    }
                },
                None => {},
            }
        }
        proof {
            let after = lines + attribute_lines(entries.take(i + 1), attributes@, *keys);
            assert(group.information@.subrange(0, n as int) =~= old(group).information@) by {
                assert(group.information@.subrange(0, n as int) =~= old_info.subrange(0, n as int));
            }
            if after.len() > before.len() {
                assert(after =~= before.push(after.last()));
            } else {
                assert(after =~= before);
            }
            assert forall|k: int| 0 <= k < after.len() implies models(#[trigger] group.information@[n + k],
                line_model(base_x as int, base_y as int, k, after[k], font_size, text_anchor)) by {
                if k < before.len() {
                    assert(group.information@[n + k] == old_info[n + k]);
                    assert(after[k] == before[k]);
                }
            }
        }
        i = i + 1;
    }
    proof {
        assert(entries.take(entries.len() as int) =~= entries);
    }
    if let Some(colour) = find_fill(fills, id) {
        push_fill_rule(css, variant, id, colour);
        group.filter = Some(TEXT_GROUP_FILTER);
    }
}

/// Where channel `direction_type` of core `core_id` is stored in `connections_group`;
/// fails, naming what is missing, when the core has no recorded channel or not this one.
pub fn get_connection_type(connections_group: &ConnectionsParentGroup, direction_type: &DirectionType, core_id: &u8) -> (r: Result<ConnectionType, SVGError>)
    ensures
        match connections_group.lookup(*core_id, *direction_type) {
            Some(t) => r == Ok::<ConnectionType, SVGError>(t),
            None => r matches Err(e) && e.error_kind matches SVGErrorKind::ConnectionError(m) && m@ == (
                if exists|t: DirectionType| #[trigger] connections_group.lookup(*core_id, t) is Some {
                    no_connection_message(*core_id, *direction_type)
                } else {
                    no_connections_message(*core_id)
                }),
        },
{
    connections_group.get_connection_type(direction_type, core_id)
}

} // verus!
