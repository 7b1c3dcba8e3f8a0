//! What holds of the configuration of a cluster as a whole.
use vstd::arithmetic::div_mod::{lemma_div_denominator, lemma_fundamental_div_mod_converse};
use vstd::arithmetic::power::{
    lemma_pow0, lemma_pow1, lemma_pow_adds, lemma_pow_positive, pow,
};
use vstd::prelude::*;
use vstd::utf8::*;
use crate::cluster::{
    after_contact_points, after_registration, registration_accepted, CassClusterView,
};
use crate::contact_points::{
    decimal, is_blank_list, is_white_space, lemma_blank_list_names_nothing, lemma_listed_points,
    lemma_listed_points_concat, listed_points, node_address, node_addresses, split_at_commas, texts, trim_back, trim_front, trimmed, trimmed_pieces,
};
use crate::cstring::{
    c_length, c_text, is_c_string, is_readable, lemma_nul_position, nul_position,
};
use crate::driver::{latency_options, uuid_text, PreferredNodes};
use crate::exec_profile::{CassExecProfile, CassExecProfileView, ExecutionProfileSettings};
use crate::load_balancing::{
    dc_aware_kind, rack_aware_kind, LatencyAwarenessSettings, LoadBalancingConfigView,
    LoadBalancingKind, LoadBalancingKindView,
};
use crate::session_options::{SelfIdentityView, SessionOptionsView};
use crate::types::{
    answer, cass_bool_t, CassConsistency, CassError, CassUuid, Consistency, SerialConsistency,
};

verus! {

// ---------------------------------------------------------------------------
// Contact points
// ---------------------------------------------------------------------------

/// Setting two lists one after the other, neither of them empty, is setting
/// them at once, joined by a comma: contact points add up.
pub proof fn law_contact_points_add_up(cluster: CassClusterView, a: Seq<char>, b: Seq<char>)
    requires
        exists|i: int| 0 <= i < a.len() && a[i] != ',',
        exists|i: int| 0 <= i < b.len() && b[i] != ',',
    ensures
        after_contact_points(after_contact_points(cluster, Some(a)), Some(b))
            == after_contact_points(cluster, Some(a + seq![','] + b)),
{
    let joined = a + seq![','] + b;
    let i = choose|i: int| 0 <= i < a.len() && a[i] != ',';
    assert(joined[i] == a[i]);
    lemma_listed_points_concat(a, b);
    assert(cluster.contact_points + listed_points(a) + listed_points(b) == cluster.contact_points
        + (listed_points(a) + listed_points(b)));
}

/// An empty list, and one of nothing but commas, clears the contact points,
/// whatever was set before.
pub proof fn law_blank_list_clears(cluster: CassClusterView, list: Seq<char>)
    requires
        forall|i: int| 0 <= i < list.len() ==> list[i] == ',',
    ensures
        after_contact_points(cluster, Some(list)).contact_points == Seq::<Seq<char>>::empty(),
        is_blank_list(Seq::<char>::empty()),
{
}

/// Any other list keeps the contact points that there are, in their places, and
/// puts its own behind them.
pub proof fn law_lists_append(cluster: CassClusterView, list: Seq<char>)
    requires
        exists|i: int| 0 <= i < list.len() && list[i] != ',',
    ensures
        ({
            let before = cluster.contact_points;
            let after = after_contact_points(cluster, Some(list)).contact_points;
            &&& after.len() == before.len() + listed_points(list).len()
            &&& forall|i: int| 0 <= i < before.len() ==> #[trigger] after[i] == before[i]
            &&& forall|i: int|
                0 <= i < listed_points(list).len() ==> after[before.len() + i]
                    == #[trigger] listed_points(list)[i]
        }),
{
}

/// A list changes the contact points and nothing else.
pub proof fn law_lists_change_contact_points_only(
    cluster: CassClusterView,
    list: Option<Seq<char>>,
)
    ensures
        after_contact_points(cluster, list) == (CassClusterView {
            contact_points: after_contact_points(cluster, list).contact_points,
            ..cluster
        }),
{
}

/// The strings of a sequence and their texts correspond one to one.
pub proof fn law_texts_are_those_of_the_strings(strings: Seq<String>)
    ensures
        texts(strings).len() == strings.len(),
        forall|i: int| 0 <= i < strings.len() ==> #[trigger] texts(strings)[i] == strings[i]@,
{
}

/// Extra commas are ignored, before, after and between contact points.
pub proof fn law_extra_commas_are_ignored(a: Seq<char>, commas: Seq<char>, b: Seq<char>)
    requires
        forall|i: int| 0 <= i < commas.len() ==> commas[i] == ',',
    ensures
        listed_points(commas + seq![','] + a) == listed_points(a),
        listed_points(a + seq![','] + commas) == listed_points(a),
        listed_points(a + seq![','] + (commas + seq![','] + b)) == listed_points(
            a + seq![','] + b,
        ),
{
    let nothing = Seq::<Seq<char>>::empty();
    lemma_blank_list_names_nothing(commas);
    lemma_listed_points_concat(commas, a);
    lemma_listed_points_concat(a, commas);
    lemma_listed_points_concat(commas, b);
    lemma_listed_points_concat(a, commas + seq![','] + b);
    lemma_listed_points_concat(a, b);
    assert(nothing + listed_points(a) == listed_points(a));
    assert(listed_points(a) + nothing == listed_points(a));
    assert(nothing + listed_points(b) == listed_points(b));
}

/// All characters of `s` are white space.
pub open spec fn is_all_white_space(s: Seq<char>) -> bool {
    forall|i: int| 0 <= i < s.len() ==> is_white_space(#[trigger] s[i])
}

proof fn lemma_trim_front_skips(space: Seq<char>, s: Seq<char>)
    requires
        is_all_white_space(space),
    ensures
        trim_front(space + s) == trim_front(s),
    decreases space.len(),
{
    if space.len() == 0 {
        assert(space + s == s);
    } else {
        assert(is_white_space(space[0]));
        assert((space + s)[0] == space[0]);
        assert((space + s).drop_first() == space.drop_first() + s);
        assert(is_all_white_space(space.drop_first())) by {
            assert(forall|i: int|
                0 <= i < space.drop_first().len() ==> space.drop_first()[i] == space[i + 1]);
        }
        lemma_trim_front_skips(space.drop_first(), s);
    }
}

proof fn lemma_trim_back_skips(s: Seq<char>, space: Seq<char>)
    requires
        is_all_white_space(space),
    ensures
        trim_back(s + space) == trim_back(s),
    decreases space.len(),
{
    if space.len() == 0 {
        assert(s + space == s);
    } else {
        assert(is_white_space(space.last()));
        assert((s + space).drop_last() == s + space.drop_last());
        assert(is_all_white_space(space.drop_last()));
        lemma_trim_back_skips(s, space.drop_last());
    }
}

proof fn lemma_trim_front_keeps_back(s: Seq<char>, space: Seq<char>)
    requires
        is_all_white_space(space),
    ensures
        trim_back(trim_front(s + space)) == trim_back(trim_front(s)),
    decreases s.len(),
{
    if s.len() == 0 {
        assert(s + space == space);
        assert(space + Seq::<char>::empty() == space);
        lemma_trim_front_skips(space, Seq::<char>::empty());
    } else if is_white_space(s[0]) {
        assert((s + space).drop_first() == s.drop_first() + space);
        lemma_trim_front_keeps_back(s.drop_first(), space);
    } else {
        lemma_trim_back_skips(s, space);
    }
}

proof fn lemma_split_without_commas(s: Seq<char>)
    requires
        !s.contains(','),
    ensures
        split_at_commas(s) == seq![s],
    decreases s.len(),
{
    if s.len() == 0 {
        assert(s == Seq::<char>::empty());
    } else {
        let front = s.drop_last();
        assert(!front.contains(',')) by {
            assert(forall|i: int| 0 <= i < front.len() ==> front[i] == s[i]);
        }
        assert(s.last() != ',') by {
            assert(s.contains(s.last()));
        }
        lemma_split_without_commas(front);
        assert(front.push(s.last()) == s);
        assert(split_at_commas(s) =~= seq![s]);
    }
}

proof fn lemma_single_piece(s: Seq<char>)
    requires
        !s.contains(','),
    ensures
        listed_points(s) == if trimmed(s).len() == 0 {
            Seq::<Seq<char>>::empty()
        } else {
            seq![trimmed(s)]
        },
{
    lemma_split_without_commas(s);
    reveal_with_fuel(trimmed_pieces, 2);
    assert(seq![s].drop_last() == Seq::<Seq<char>>::empty());
    assert(Seq::<Seq<char>>::empty().push(trimmed(s)) == seq![trimmed(s)]);
}

/// White space around a contact point is ignored.
pub proof fn law_surrounding_white_space_is_ignored(
    front: Seq<char>,
    point: Seq<char>,
    back: Seq<char>,
)
    requires
        is_all_white_space(front),
        is_all_white_space(back),
        !point.contains(','),
    ensures
        listed_points(front + point + back) == listed_points(point),
{
    let whole = front + point + back;
    assert forall|i: int| 0 <= i < whole.len() implies whole[i] != ',' by {
        if i < front.len() {
            assert(is_white_space(front[i]));
        } else if i < front.len() + point.len() {
            assert(whole[i] == point[i - front.len()]);
        } else {
            assert(is_white_space(back[i - front.len() - point.len()]));
        }
    }
    lemma_single_piece(whole);
    lemma_single_piece(point);
    assert(whole == front + (point + back));
    lemma_trim_front_skips(front, point + back);
    lemma_trim_front_keeps_back(point, back);
}

/// A text without commas names one contact point, the text without the white
/// space around it.
pub proof fn law_text_without_commas_names_one_point(
    front: Seq<char>,
    point: Seq<char>,
    back: Seq<char>,
)
    requires
        is_all_white_space(front),
        is_all_white_space(back),
        point.len() > 0,
        !is_white_space(point[0]),
        !is_white_space(point.last()),
        !point.contains(','),
    ensures
        listed_points(front + point + back) == seq![point],
{
    law_surrounding_white_space_is_ignored(front, point, back);
    lemma_single_piece(point);
    assert(trimmed(point) == point);
}

/// A text of nothing but white space names no contact point.
pub proof fn law_white_space_names_nothing(space: Seq<char>)
    requires
        is_all_white_space(space),
    ensures
        listed_points(space) == Seq::<Seq<char>>::empty(),
{
    let nothing = Seq::<char>::empty();
    law_surrounding_white_space_is_ignored(space, nothing, nothing);
    assert(space + nothing + nothing == space);
    lemma_blank_list_names_nothing(nothing);
}

/// Two lists joined by a comma name what the first names, and then what the
/// second names, in order and each as often as it stands there.
pub proof fn law_joined_lists_name_what_each_names(a: Seq<char>, b: Seq<char>)
    ensures
        listed_points(a + seq![','] + b) == listed_points(a) + listed_points(b),
{
    lemma_listed_points_concat(a, b);
}

/// Texts joined by commas.
pub open spec fn joined_by_commas(points: Seq<Seq<char>>) -> Seq<char>
    decreases points.len(),
{
    if points.len() == 0 {
        Seq::empty()
    } else if points.len() == 1 {
        points[0]
    } else {
        joined_by_commas(points.drop_last()) + seq![','] + points.last()
    }
}

/// Contact points that are written as a list are read back as they were.
pub proof fn law_contact_points_read_back(points: Seq<Seq<char>>)
    requires
        forall|i: int|
            #![trigger points[i]]
            0 <= i < points.len() ==> {
                &&& points[i].len() > 0
                &&& !is_white_space(points[i][0])
                &&& !is_white_space(points[i].last())
                &&& !points[i].contains(',')
            },
    ensures
        listed_points(joined_by_commas(points)) == points,
    decreases points.len(),
{
    if points.len() == 0 {
        lemma_blank_list_names_nothing(joined_by_commas(points));
    } else {
        let last = points.last();
        assert(points[points.len() - 1] == last);
        lemma_single_piece(last);
        assert(trimmed(last) == last);
        if points.len() > 1 {
            let front = points.drop_last();
            assert(forall|i: int| 0 <= i < front.len() ==> front[i] == points[i]);
            law_contact_points_read_back(front);
            lemma_listed_points_concat(joined_by_commas(front), last);
        }
        assert(listed_points(joined_by_commas(points)) =~= points);
    }
}

/// A session contacts every contact point that was set, in order, at the port
/// that was set.
pub proof fn law_session_contacts_the_listed_nodes(cluster: CassClusterView, list: Seq<char>)
    requires
        exists|i: int| 0 <= i < list.len() && list[i] != ',',
    ensures
        after_contact_points(cluster, Some(list)).session_contents().known_nodes
            == cluster.session_contents().known_nodes + node_addresses(
            listed_points(list),
            cluster.port,
        ),
{
    let before = cluster.contact_points;
    let added = listed_points(list);
    assert(node_addresses(before + added, cluster.port) =~= node_addresses(before, cluster.port)
        + node_addresses(added, cluster.port));
}

/// The number that a sequence of decimal digits stands for.
pub open spec fn decimal_value(digits: Seq<char>) -> int
    decreases digits.len(),
{
    if digits.len() == 0 {
        0
    } else {
        decimal_value(digits.drop_last()) * 10 + (digits.last() as int - 48)
    }
}

proof fn lemma_decimal(n: nat)
    ensures
        decimal(n).len() > 0,
        decimal_value(decimal(n)) == n,
        forall|i: int| 0 <= i < decimal(n).len() ==> '0' <= #[trigger] decimal(n)[i] <= '9',
    decreases n,
{
    if n < 10 {
        reveal_with_fuel(decimal_value, 2);
        assert(decimal(n).drop_last() == Seq::<char>::empty());
    } else {
        lemma_decimal(n / 10);
        assert(decimal(n).drop_last() == decimal(n / 10));
    }
}

/// `digits` are the decimal digits of `n`: the one at a place is that of the
/// power of ten of this place, and no zero stands in front.
pub open spec fn are_digits_of(digits: Seq<char>, n: int) -> bool {
    &&& digits.len() > 0
    &&& n < pow(10, digits.len())
    &&& digits.len() > 1 ==> digits[0] != '0'
    &&& forall|k: int|
        0 <= k < digits.len() ==> #[trigger] digits[k] as int == 48 + n / pow(
            10,
            (digits.len() - 1 - k) as nat,
        ) % 10
}

/// `node` is `point`, a colon, and the decimal digits of `port`.
pub open spec fn is_point_at_port(node: Seq<char>, point: Seq<char>, port: u16) -> bool {
    &&& node.len() > point.len() + 1
    &&& forall|k: int| 0 <= k < point.len() ==> #[trigger] node[k] == point[k]
    &&& node[point.len() as int] == ':'
    &&& are_digits_of(node.skip(point.len() as int + 1), port as int)
}

proof fn lemma_decimal_digits(n: nat)
    ensures
        are_digits_of(decimal(n), n as int),
        n > 0 ==> decimal(n)[0] != '0',
    decreases n,
{
    let digits = decimal(n);
    if n < 10 {
        lemma_pow0(10);
        lemma_pow1(10);
    } else {
        let front = decimal(n / 10);
        let len = digits.len();
        lemma_decimal_digits(n / 10);
        lemma_pow_adds(10, 1, front.len());
        lemma_pow1(10);
        lemma_pow0(10);
        assert(n < pow(10, len)) by {
            assert(n / 10 < pow(10, front.len()));
            assert(pow(10, len) == 10 * pow(10, front.len()));
        }
        assert forall|k: int| 0 <= k < len implies #[trigger] digits[k] as int == 48 + n as int
            / pow(10, (len - 1 - k) as nat) % 10 by {
            if k < front.len() {
                let e = (front.len() - 1 - k) as nat;
                assert(digits[k] == front[k]);
                lemma_pow_positive(10, e);
                lemma_pow_adds(10, 1, e);
                lemma_div_denominator(n as int, 10, pow(10, e));
                assert((len - 1 - k) as nat == 1 + e);
            }
        }
        assert(digits[0] == front[0]);
    }
}

/// A session has as many known nodes as the cluster has contact points, and
/// each is the contact point in the same place, a colon, and the port in
/// decimal.
pub proof fn law_known_nodes_are_the_contact_points_at_the_port(cluster: CassClusterView)
    ensures
        cluster.session_contents().known_nodes.len() == cluster.contact_points.len(),
        forall|i: int|
            0 <= i < cluster.contact_points.len() ==> is_point_at_port(
                #[trigger] cluster.session_contents().known_nodes[i],
                cluster.contact_points[i],
                cluster.port,
            ),
{
    let nodes = cluster.session_contents().known_nodes;
    assert forall|i: int| 0 <= i < cluster.contact_points.len() implies is_point_at_port(
        #[trigger] nodes[i],
        cluster.contact_points[i],
        cluster.port,
    ) by {
        let point = cluster.contact_points[i];
        let digits = decimal(cluster.port as nat);
        lemma_decimal_digits(cluster.port as nat);
        assert(nodes[i].skip(point.len() as int + 1) =~= digits);
    }
}

/// The address of a node ends with a colon and the digits of the port, and
/// different contact points or ports have different addresses.
pub proof fn law_node_addresses_differ(p: Seq<char>, a: u16, q: Seq<char>, b: u16)
    requires
        node_address(p, a) == node_address(q, b),
    ensures
        p == q,
        a == b,
{
    let left = decimal(a as nat);
    let right = decimal(b as nat);
    let address = node_address(p, a);
    lemma_decimal(a as nat);
    lemma_decimal(b as nat);
    assert(address.len() == p.len() + 1 + left.len());
    assert(address.len() == q.len() + 1 + right.len());
    assert(address[p.len() as int] == ':');
    assert(address[q.len() as int] == ':') by {
        assert(node_address(q, b)[q.len() as int] == ':');
    }
    if p.len() < q.len() {
        assert(address[q.len() as int] == left[q.len() - p.len() - 1]);
        assert(false);
    }
    if q.len() < p.len() {
        assert(address[p.len() as int] == node_address(q, b)[p.len() as int]);
        assert(node_address(q, b)[p.len() as int] == right[p.len() - q.len() - 1]);
        assert(false);
    }
    assert(p =~= address.take(p.len() as int));
    assert(q =~= node_address(q, b).take(q.len() as int));
    assert(left =~= address.skip(p.len() as int + 1));
    assert(right =~= node_address(q, b).skip(q.len() as int + 1));
}

// ---------------------------------------------------------------------------
// C strings
// ---------------------------------------------------------------------------

proof fn lemma_scalar_has_no_nul(c: char)
    requires
        c != '\0',
    ensures
        forall|i: int|
            0 <= i < encode_scalar(c as u32).len() ==> #[trigger] encode_scalar(c as u32)[i] != 0,
{
    let first = c as u32;
    assert(first != 0);
    assert(0 < first <= 0x7f ==> (first & 0x7f) as u8 != 0) by (bit_vector);
    assert(0xC0u8 | ((first >> 6) & 0x1F) as u8 != 0) by (bit_vector);
    assert(0xE0u8 | ((first >> 12) & 0x0F) as u8 != 0) by (bit_vector);
    assert(0xF0u8 | ((first >> 18) & 0x7) as u8 != 0) by (bit_vector);
    assert(0x80u8 | (first & 0x3F) as u8 != 0) by (bit_vector);
    assert(0x80u8 | ((first >> 6) & 0x3F) as u8 != 0) by (bit_vector);
    assert(0x80u8 | ((first >> 12) & 0x3F) as u8 != 0) by (bit_vector);
}

proof fn lemma_encoding_has_no_nul(text: Seq<char>)
    requires
        !text.contains('\0'),
    ensures
        !encode_utf8(text).contains(0u8),
    decreases text.len(),
{
    if text.len() > 0 {
        let rest = text.drop_first();
        assert(text[0] != '\0') by {
            assert(text.contains(text[0]));
        }
        assert(!rest.contains('\0')) by {
            assert(forall|i: int| 0 <= i < rest.len() ==> rest[i] == text[i + 1]);
        }
        lemma_encoding_has_no_nul(rest);
        lemma_scalar_has_no_nul(text[0]);
        let scalar = encode_scalar(text[0] as u32);
        assert forall|i: int| 0 <= i < encode_utf8(text).len() implies encode_utf8(text)[i]
            != 0 by {
            if i >= scalar.len() {
                assert(encode_utf8(rest)[i - scalar.len()] != 0) by {
                    assert(encode_utf8(rest).contains(encode_utf8(rest)[i - scalar.len()]));
                }
            }
        }
    }
}

/// A text without NUL characters, written in UTF-8 with a NUL behind it, is
/// read as that text.
pub proof fn law_c_string_reads_back(raw: Option<&[u8]>, text: Seq<char>)
    requires
        !text.contains('\0'),
        raw is Some,
        raw->0@ == encode_utf8(text).push(0u8),
    ensures
        c_text(raw, c_length(raw) as int) == Some(text),
{
    let encoded = encode_utf8(text);
    let bytes = raw->0@;
    lemma_encoding_has_no_nul(text);
    lemma_nul_position(bytes);
    assert(bytes[encoded.len() as int] == 0);
    assert(bytes.contains(0u8));
    if nul_position(bytes) < encoded.len() {
        assert(encoded[nul_position(bytes) as int] == 0);
        assert(encoded.contains(0u8));
    }
    assert(bytes.take(nul_position(bytes) as int) =~= encoded);
    encode_utf8_valid_utf8(text);
    encode_utf8_decode_utf8(text);
}

/// The length of a C string is that up to its first NUL, and what stands behind
/// it does not count; NULL has length zero.
pub proof fn law_c_string_ends_at_the_first_nul(raw: Option<&[u8]>)
    ensures
        raw is None ==> is_c_string(raw) && c_length(raw) == 0,
        raw matches Some(bytes) ==> (bytes@.contains(0u8) ==> {
            &&& is_c_string(raw)
            &&& c_length(raw) < bytes@.len()
            &&& bytes@[c_length(raw) as int] == 0
            &&& forall|i: int| 0 <= i < c_length(raw) ==> bytes@[i] != 0
        }),
{
    if let Some(bytes) = raw {
        lemma_nul_position(bytes@);
    }
}

/// Text is read from exactly the bytes that are counted: it is there where
/// they are UTF-8, and they are its encoding. NULL has no text.
pub proof fn law_text_is_that_of_the_bytes(raw: Option<&[u8]>, length: int)
    requires
        raw matches Some(bytes) ==> 0 <= length <= bytes@.len(),
    ensures
        is_readable(raw, length),
        c_text(raw, length) is Some <==> raw is Some && valid_utf8(raw->0@.take(length)),
        c_text(raw, length) matches Some(text) ==> encode_utf8(text) == raw->0@.take(length),
{
    if let Some(bytes) = raw {
        if valid_utf8(bytes@.take(length)) {
            decode_utf8_encode_utf8(bytes@.take(length));
        }
    }
}

/// A text is read from the bytes of its encoding, whatever stands behind them.
proof fn lemma_text_of_encoding(raw: Option<&[u8]>, length: int, text: Seq<char>)
    requires
        raw is Some,
        raw->0@.take(length) == encode_utf8(text),
    ensures
        c_text(raw, length) == Some(text),
{
    encode_utf8_valid_utf8(text);
    encode_utf8_decode_utf8(text);
}

proof fn lemma_encoding_of_text_is_not_empty(raw: Option<&[u8]>, length: int, text: Seq<char>)
    requires
        raw is Some,
        0 <= length <= raw->0@.len(),
        raw->0@.take(length) == encode_utf8(text),
        text.len() > 0,
    ensures
        length > 0,
{
    encode_utf8_first_scalar(text);
}

// ---------------------------------------------------------------------------
// Answers and names
// ---------------------------------------------------------------------------

/// What is accepted is answered `CASS_OK`, what is refused
/// `CASS_ERROR_LIB_BAD_PARAMS`.
pub proof fn law_answers(accepted: bool)
    ensures
        answer(accepted) == CassError::CASS_OK <==> accepted,
        answer(accepted) == CassError::CASS_ERROR_LIB_BAD_PARAMS <==> !accepted,
{
}

/// Different names stand for different levels, and only one name for none.
pub proof fn law_consistency_names_differ(a: CassConsistency, b: CassConsistency)
    ensures
        a.level() == b.level() <==> a == b,
        a.level() is None <==> a is CASS_CONSISTENCY_UNKNOWN,
{
}

/// A name stands for a serial level exactly where the level that it stands for
/// is serial, and the two agree.
pub proof fn law_serial_levels_are_levels(name: CassConsistency)
    ensures
        name.serial_level() == Some(SerialConsistency::Serial) <==> name.level() == Some(
            Consistency::Serial,
        ),
        name.serial_level() == Some(SerialConsistency::LocalSerial) <==> name.level() == Some(
            Consistency::LocalSerial,
        ),
{
}

// ---------------------------------------------------------------------------
// Execution profiles
// ---------------------------------------------------------------------------

/// A profile is accepted under any name that is not empty, and then found under
/// it; every other name stands for what it stood for, and only a new name makes
/// the map grow, by one.
pub proof fn law_registered_profile_is_found(
    profiles: Map<Seq<char>, CassExecProfileView>,
    name: Seq<char>,
    profile: &CassExecProfile,
    other: Seq<char>,
)
    requires
        profiles.dom().finite(),
        name.len() > 0,
        other != name,
    ensures
        registration_accepted(Some(name), Some(profile)),
        ({
            let after = after_registration(profiles, Some(name), Some(profile));
            &&& after.contains_key(name)
            &&& after[name] == profile@
            &&& after.contains_key(other) == profiles.contains_key(other)
            &&& profiles.contains_key(other) ==> after[other] == profiles[other]
            &&& after.len() == if profiles.contains_key(name) {
                profiles.len()
            } else {
                profiles.len() + 1
            }
        }),
{
    if profiles.contains_key(name) {
        assert(profiles.dom().insert(name) =~= profiles.dom());
    }
    assert(profiles.insert(name, profile@).dom() =~= profiles.dom().insert(name));
}

/// A profile that is registered is kept whole: its settings, and every load
/// balancing option.
pub proof fn law_registered_profile_is_kept_whole(
    profiles: Map<Seq<char>, CassExecProfileView>,
    name: Seq<char>,
    profile: &CassExecProfile,
)
    requires
        name.len() > 0,
    ensures
        ({
            let kept = after_registration(profiles, Some(name), Some(profile))[name];
            let options = profile.load_balancing_config;
            &&& kept.settings == profile.settings
            &&& kept.load_balancing_config.token_awareness_enabled
                == options.token_awareness_enabled
            &&& kept.load_balancing_config.token_aware_shuffling_replicas_enabled
                == options.token_aware_shuffling_replicas_enabled
            &&& kept.load_balancing_config.load_balancing_kind is Some
                <==> options.load_balancing_kind is Some
            &&& options.load_balancing_kind matches Some(kind)
                ==> kept.load_balancing_config.load_balancing_kind == Some(kind@)
            &&& kept.load_balancing_config.latency_awareness_enabled
                == options.latency_awareness_enabled
            &&& kept.load_balancing_config.latency_awareness_settings == latency_options(
                options.latency_awareness_builder,
            )
        }),
{
}

/// The names in a kind are those of its datacenter and of its rack, each in its
/// place.
pub proof fn law_kinds_keep_their_names(local_dc: String, local_rack: String)
    ensures
        (LoadBalancingKind::DcAware { local_dc })@ == (LoadBalancingKindView::DcAware {
            local_dc: local_dc@,
        }),
        (LoadBalancingKind::RackAware { local_dc, local_rack })@ == (
        LoadBalancingKindView::RackAware { local_dc: local_dc@, local_rack: local_rack@ }),
        (LoadBalancingKind::RoundRobin)@ == LoadBalancingKindView::RoundRobin,
{
}

/// A NULL pointer for name or profile, and an empty name, are refused, and the
/// profiles stay as they are.
pub proof fn law_registrations_need_name_and_profile(
    profiles: Map<Seq<char>, CassExecProfileView>,
    name: Option<Seq<char>>,
    profile: Option<&CassExecProfile>,
)
    requires
        name is None || name->0.len() == 0 || profile is None,
    ensures
        !registration_accepted(name, profile),
        after_registration(profiles, name, profile) == profiles,
{
}

/// Of two profiles registered under one name the later one stays; under two
/// names the order does not matter.
pub proof fn law_registrations_replace_and_commute(
    profiles: Map<Seq<char>, CassExecProfileView>,
    a: Seq<char>,
    p: &CassExecProfile,
    b: Seq<char>,
    q: &CassExecProfile,
)
    ensures
        a == b && a.len() > 0 ==> after_registration(
            after_registration(profiles, Some(a), Some(p)),
            Some(b),
            Some(q),
        ) == after_registration(profiles, Some(b), Some(q)),
        a != b ==> after_registration(
            after_registration(profiles, Some(a), Some(p)),
            Some(b),
            Some(q),
        ) == after_registration(
            after_registration(profiles, Some(b), Some(q)),
            Some(a),
            Some(p),
        ),
{
    if a == b && a.len() > 0 {
        assert(profiles.insert(a, p@).insert(b, q@) =~= profiles.insert(b, q@));
    }
    if a != b {
        assert(profiles.insert(a, p@).insert(b, q@) =~= profiles.insert(b, q@).insert(a, p@));
    }
}

// ---------------------------------------------------------------------------
// Load balancing
// ---------------------------------------------------------------------------

/// A datacenter is chosen by its name: given one that is not empty, and zeros
/// for what is deprecated, the choice is accepted and the policy prefers this
/// datacenter, whatever the other options are and however long the name is.
pub proof fn law_named_datacenter_is_preferred(
    config: LoadBalancingConfigView,
    raw: Option<&[u8]>,
    length: int,
    datacenter: Seq<char>,
)
    requires
        raw is Some,
        0 <= length <= raw->0@.len(),
        raw->0@.take(length) == encode_utf8(datacenter),
        datacenter.len() > 0,
    ensures
        ({
            let kind = dc_aware_kind(raw, length, 0, 0);
            let policy = config.choose_kind(kind).policy();
            &&& kind == Some(LoadBalancingKindView::DcAware { local_dc: datacenter })
            &&& policy.preferred_nodes == PreferredNodes::Datacenter(datacenter)
            &&& policy.permit_dc_failover
        }),
{
    lemma_text_of_encoding(raw, length, datacenter);
    lemma_encoding_of_text_is_not_empty(raw, length, datacenter);
}

/// No datacenter, an empty name, and anything but zero for what is deprecated
/// are refused; nothing else is.
pub proof fn law_refused_datacenters(
    raw: Option<&[u8]>,
    length: int,
    used_hosts_per_remote_dc: u32,
    allow_remote_dcs_for_local_cl: cass_bool_t,
)
    ensures
        dc_aware_kind(
            raw,
            length,
            used_hosts_per_remote_dc,
            allow_remote_dcs_for_local_cl,
        ) is None <==> raw is None || length == 0 || used_hosts_per_remote_dc != 0
            || allow_remote_dcs_for_local_cl != 0,
{
}

/// A rack is chosen by two names, the datacenter's first: given two that are
/// not empty, the choice is accepted and the policy prefers this rack in this
/// datacenter, whatever the other options are and however long the names are.
pub proof fn law_named_rack_is_preferred(
    config: LoadBalancingConfigView,
    dc_raw: Option<&[u8]>,
    dc_length: int,
    rack_raw: Option<&[u8]>,
    rack_length: int,
    datacenter: Seq<char>,
    rack: Seq<char>,
)
    requires
        dc_raw is Some,
        0 <= dc_length <= dc_raw->0@.len(),
        dc_raw->0@.take(dc_length) == encode_utf8(datacenter),
        datacenter.len() > 0,
        rack_raw is Some,
        0 <= rack_length <= rack_raw->0@.len(),
        rack_raw->0@.take(rack_length) == encode_utf8(rack),
        rack.len() > 0,
    ensures
        ({
            let kind = rack_aware_kind(dc_raw, dc_length, rack_raw, rack_length);
            let policy = config.choose_kind(kind).policy();
            &&& kind == Some(
                LoadBalancingKindView::RackAware { local_dc: datacenter, local_rack: rack },
            )
            &&& policy.preferred_nodes == PreferredNodes::DatacenterAndRack(datacenter, rack)
            &&& policy.permit_dc_failover
        }),
{
    lemma_text_of_encoding(dc_raw, dc_length, datacenter);
    lemma_encoding_of_text_is_not_empty(dc_raw, dc_length, datacenter);
    lemma_text_of_encoding(rack_raw, rack_length, rack);
    lemma_encoding_of_text_is_not_empty(rack_raw, rack_length, rack);
}

/// A NULL pointer, an empty name and bytes that are not UTF-8 are refused, for
/// the datacenter and for the rack; nothing else is.
pub proof fn law_refused_racks(
    dc_raw: Option<&[u8]>,
    dc_length: int,
    rack_raw: Option<&[u8]>,
    rack_length: int,
)
    requires
        dc_length >= 0,
        rack_length >= 0,
    ensures
        rack_aware_kind(dc_raw, dc_length, rack_raw, rack_length) is None <==> {
            ||| dc_raw is None
            ||| dc_length == 0
            ||| !valid_utf8(dc_raw->0@.take(dc_length))
            ||| rack_raw is None
            ||| rack_length == 0
            ||| !valid_utf8(rack_raw->0@.take(rack_length))
        },
{
}

/// The kind alone says which nodes a policy prefers: a datacenter, a rack in a
/// datacenter, or none in particular.
pub proof fn law_policy_prefers_what_the_kind_names(
    config: LoadBalancingConfigView,
    datacenter: Seq<char>,
    rack: Seq<char>,
)
    ensures
        (LoadBalancingConfigView {
            load_balancing_kind: Some(LoadBalancingKindView::DcAware { local_dc: datacenter }),
            ..config
        }).policy().preferred_nodes == PreferredNodes::Datacenter(datacenter),
        (LoadBalancingConfigView {
            load_balancing_kind: Some(
                LoadBalancingKindView::RackAware { local_dc: datacenter, local_rack: rack },
            ),
            ..config
        }).policy().preferred_nodes == PreferredNodes::DatacenterAndRack(datacenter, rack),
        (LoadBalancingConfigView {
            load_balancing_kind: Some(LoadBalancingKindView::RoundRobin),
            ..config
        }).policy().preferred_nodes == PreferredNodes::Unnamed,
        (LoadBalancingConfigView {
            load_balancing_kind: None,
            ..config
        }).policy().preferred_nodes == PreferredNodes::Unnamed,
{
}

/// Switching token awareness, shuffling or latency awareness, or setting its
/// options, changes neither the preferred nodes nor failover.
pub proof fn law_switches_keep_the_preferred_nodes(
    config: LoadBalancingConfigView,
    token_aware: bool,
    shuffle: bool,
    latency_aware: bool,
    settings: LatencyAwarenessSettings,
)
    ensures
        ({
            let switched = LoadBalancingConfigView {
                token_awareness_enabled: token_aware,
                token_aware_shuffling_replicas_enabled: shuffle,
                load_balancing_kind: config.load_balancing_kind,
                latency_awareness_enabled: latency_aware,
                latency_awareness_settings: settings,
            };
            &&& switched.policy().preferred_nodes == config.policy().preferred_nodes
            &&& switched.policy().permit_dc_failover == config.policy().permit_dc_failover
        }),
{
}

/// A policy is token aware exactly where this is switched on, and then shuffles
/// replicas exactly where that is.
pub proof fn law_token_awareness_reaches_the_policy(config: LoadBalancingConfigView)
    ensures
        config.policy().token_aware == config.token_awareness_enabled,
        config.token_awareness_enabled ==> config.policy().shuffle_replicas
            == config.token_aware_shuffling_replicas_enabled,
        !config.token_awareness_enabled ==> config.policy().shuffle_replicas,
{
}

/// A policy looks at latency exactly where this is switched on.
pub proof fn law_latency_awareness_reaches_the_policy(config: LoadBalancingConfigView)
    ensures
        config.policy().latency_awareness is Some <==> config.latency_awareness_enabled,
{
}

/// Choosing a kind sets the kind and leaves every other option.
pub proof fn law_choosing_a_kind_sets_it_alone(
    config: LoadBalancingConfigView,
    kind: LoadBalancingKindView,
)
    ensures
        config.choose_kind(Some(kind)).load_balancing_kind == Some(kind),
        config.choose_kind(Some(kind)) == (LoadBalancingConfigView {
            load_balancing_kind: Some(kind),
            ..config
        }),
{
}

/// Until a kind is chosen the policy is the round robin one.
pub proof fn law_round_robin_by_default(config: LoadBalancingConfigView)
    requires
        config.load_balancing_kind is None,
    ensures
        config.policy() == config.choose_kind(Some(LoadBalancingKindView::RoundRobin)).policy(),
{
}

/// Of two kinds that are chosen the later one holds; a refused choice leaves
/// the one before in place.
pub proof fn law_last_chosen_kind_holds(
    config: LoadBalancingConfigView,
    first: Option<LoadBalancingKindView>,
    second: LoadBalancingKindView,
)
    ensures
        config.choose_kind(first).choose_kind(Some(second)) == config.choose_kind(Some(second)),
        config.choose_kind(Some(second)).choose_kind(None) == config.choose_kind(Some(second)),
        config.choose_kind(Some(second)).effective_kind() == second,
{
}

/// Requests may leave the preferred datacenter exactly where one is preferred.
pub proof fn law_failover_goes_with_preference(config: LoadBalancingConfigView)
    ensures
        config.policy().permit_dc_failover <==> !(config.policy().preferred_nodes is Unnamed),
{
}

/// Without token awareness the choice to shuffle replicas has no effect.
pub proof fn law_shuffling_needs_token_awareness(
    config: LoadBalancingConfigView,
    shuffle: bool,
)
    requires
        !config.token_awareness_enabled,
    ensures
        (LoadBalancingConfigView {
            token_aware_shuffling_replicas_enabled: shuffle,
            ..config
        }).policy() == config.policy(),
{
}

/// Unless latency awareness is switched on, its options have no effect.
pub proof fn law_latency_options_need_latency_awareness(
    config: LoadBalancingConfigView,
    settings: LatencyAwarenessSettings,
)
    requires
        !config.latency_awareness_enabled,
    ensures
        (LoadBalancingConfigView { latency_awareness_settings: settings, ..config }).policy()
            == config.policy(),
{
}

/// Options of latency awareness, the threshold among them, reach the policy as
/// they were set, once it is switched on.
pub proof fn law_latency_options_reach_the_policy(
    config: LoadBalancingConfigView,
    settings: LatencyAwarenessSettings,
)
    requires
        config.latency_awareness_enabled,
    ensures
        (LoadBalancingConfigView {
            latency_awareness_settings: settings,
            ..config
        }).policy().latency_awareness == Some(settings),
{
}

// ---------------------------------------------------------------------------
// Clusters
// ---------------------------------------------------------------------------

/// Setting contact points and registering a profile keep a cluster valid,
/// whatever is handed in.
pub proof fn law_validity_is_kept(
    cluster: CassClusterView,
    text: Option<Seq<char>>,
    profile: Option<&CassExecProfile>,
)
    requires
        cluster.valid(),
    ensures
        after_contact_points(cluster, text).valid(),
        (CassClusterView {
            execution_profiles: after_registration(cluster.execution_profiles, text, profile),
            ..cluster
        }).valid(),
{
    if let Some(list) = text {
        lemma_listed_points(list);
    }
}

proof fn lemma_same_quotient(q1: int, r1: int, q2: int, r2: int, d: int)
    requires
        q1 * d + r1 == q2 * d + r2,
        0 <= r1 < d,
        0 <= r2 < d,
    ensures
        q1 == q2,
        r1 == r2,
{
    lemma_fundamental_div_mod_converse(q1 * d + r1, d, q1, r1);
    lemma_fundamental_div_mod_converse(q1 * d + r1, d, q2, r2);
}

/// Different identifiers have different bits.
pub proof fn law_client_ids_differ(a: CassUuid, b: CassUuid)
    requires
        a.bits() == b.bits(),
    ensures
        a == b,
{
    let a_low = a.time_and_version as int % 0x1_0000_0000;
    let a_rest = a.time_and_version as int / 0x1_0000_0000;
    let a_middle = a_rest % 0x1_0000;
    let a_high = a.time_and_version as int / 0x1_0000_0000_0000;
    let b_low = b.time_and_version as int % 0x1_0000_0000;
    let b_rest = b.time_and_version as int / 0x1_0000_0000;
    let b_middle = b_rest % 0x1_0000;
    let b_high = b.time_and_version as int / 0x1_0000_0000_0000;
    lemma_same_quotient(
        (a_low * 0x1_0000 + a_middle) * 0x1_0000 + a_high,
        a.clock_seq_and_node as int,
        (b_low * 0x1_0000 + b_middle) * 0x1_0000 + b_high,
        b.clock_seq_and_node as int,
        0x1_0000_0000_0000_0000,
    );
    lemma_same_quotient(
        a_low * 0x1_0000 + a_middle,
        a_high,
        b_low * 0x1_0000 + b_middle,
        b_high,
        0x1_0000,
    );
    lemma_same_quotient(a_low, a_middle, b_low, b_middle, 0x1_0000);
    assert(a_high == a_rest / 0x1_0000);
    assert(b_high == b_rest / 0x1_0000);
}

/// The bits of an identifier hold its parts in the order of its text: the low
/// bits of the time on top, then the middle bits, the high bits with the
/// version, and the clock sequence and node.
pub proof fn law_client_id_bits_hold_the_parts(id: CassUuid)
    ensures
        id.bits() / 0x1_0000_0000_0000_0000_0000_0000 == id.time_and_version % 0x1_0000_0000,
        id.bits() / 0x1_0000_0000_0000_0000_0000 % 0x1_0000 == id.time_and_version / 0x1_0000_0000
            % 0x1_0000,
        id.bits() / 0x1_0000_0000_0000_0000 % 0x1_0000 == id.time_and_version
            / 0x1_0000_0000_0000,
        id.bits() % 0x1_0000_0000_0000_0000 == id.clock_seq_and_node,
{
    let time = id.time_and_version as int;
    let low = time % 0x1_0000_0000;
    let middle = time / 0x1_0000_0000 % 0x1_0000;
    let high = time / 0x1_0000_0000_0000;
    let clock = id.clock_seq_and_node as int;
    let top = (low * 0x1_0000 + middle) * 0x1_0000 + high;
    lemma_fundamental_div_mod_converse(id.bits(), 0x1_0000_0000_0000_0000, top, clock);
    lemma_fundamental_div_mod_converse(top, 0x1_0000, low * 0x1_0000 + middle, high);
    lemma_fundamental_div_mod_converse(low * 0x1_0000 + middle, 0x1_0000, low, middle);
    lemma_div_denominator(id.bits(), 0x1_0000_0000_0000_0000, 0x1_0000);
    lemma_div_denominator(id.bits(), 0x1_0000_0000_0000_0000_0000, 0x1_0000);
}

/// The number that a lower case hexadecimal digit stands for.
pub open spec fn hex_value(c: char) -> int {
    if '0' <= c <= '9' {
        c as int - '0' as int
    } else {
        c as int - 'a' as int + 10
    }
}

/// The text of an identifier has hyphens behind its 8th, 12th, 16th and 20th
/// digit; every other place has the lower case digit of a power of sixteen, the
/// highest first.
pub proof fn law_client_id_text_has_the_digits(value: u128, k: int)
    requires
        0 <= k < 32,
    ensures
        ({
            let text = uuid_text(value);
            let place = if k < 8 {
                k
            } else if k < 12 {
                k + 1
            } else if k < 16 {
                k + 2
            } else if k < 20 {
                k + 3
            } else {
                k + 4
            };
            &&& text.len() == 36
            &&& text[8] == '-' && text[13] == '-' && text[18] == '-' && text[23] == '-'
            &&& '0' <= text[place] <= '9' || 'a' <= text[place] <= 'f'
            &&& hex_value(text[place]) == value as int / pow(16, (31 - k) as nat) % 16
        }),
{
}

/// What is refused changes nothing.
pub proof fn law_refusals_change_nothing(
    cluster: CassClusterView,
    name: Option<Seq<char>>,
    profile: Option<&CassExecProfile>,
)
    requires
        !registration_accepted(name, profile),
    ensures
        after_registration(cluster.execution_profiles, name, profile) == cluster.execution_profiles,
        after_contact_points(cluster, None) == cluster,
        cluster.load_balancing.choose_kind(None) == cluster.load_balancing,
{
}

/// Options are read back as they were set, and setting one group of them leaves
/// the others.
pub proof fn law_options_are_read_back(
    cluster: CassClusterView,
    session: SessionOptionsView,
    identity: SelfIdentityView,
    settings: ExecutionProfileSettings,
    load_balancing: LoadBalancingConfigView,
)
    ensures
        cluster.with_session(session).session == session,
        cluster.with_session(session) == (CassClusterView { session, ..cluster }),
        cluster.with_identity(identity).session.identity == identity,
        cluster.with_identity(identity).session == (SessionOptionsView {
            identity,
            ..cluster.session
        }),
        cluster.with_identity(identity).with_session(cluster.session) == cluster,
        cluster.with_profile(settings).default_execution_profile == settings,
        cluster.with_profile(settings).with_profile(cluster.default_execution_profile) == cluster,
        cluster.with_load_balancing(load_balancing).load_balancing == load_balancing,
        cluster.with_load_balancing(load_balancing).with_load_balancing(cluster.load_balancing)
            == cluster,
{
}

/// A session has every option as the cluster holds it; those that no setter is
/// for are the driver's own.
pub proof fn law_session_has_the_options_of_the_cluster(cluster: CassClusterView)
    ensures
        cluster.session_contents().options == cluster.session,
        cluster.session_contents().others_have_defaults,
{
}

/// Session options that are set reach a session as they were set, whatever
/// was set before; nodes and user are not touched by it.
pub proof fn law_session_options_reach_the_session(
    cluster: CassClusterView,
    session: SessionOptionsView,
)
    ensures
        cluster.with_session(session).session_contents().options == session,
        cluster.with_session(session).session_contents().known_nodes
            == cluster.session_contents().known_nodes,
        cluster.with_session(session).session_contents().user == cluster.session_contents().user,
{
}

/// Times and flags that are set are those of the session, for all values.
pub proof fn law_times_reach_the_session(
    cluster: CassClusterView,
    connect_timeout_ms: u64,
    keepalive_interval_ms: Option<u64>,
    keepalive_timeout_ms: Option<u64>,
)
    ensures
        ({
            let options = cluster.with_session(
                SessionOptionsView {
                    connect_timeout_ms,
                    keepalive_interval_ms,
                    keepalive_timeout_ms,
                    ..cluster.session
                },
            ).session_contents().options;
            &&& options.connect_timeout_ms == connect_timeout_ms
            &&& options.keepalive_interval_ms == keepalive_interval_ms
            &&& options.keepalive_timeout_ms == keepalive_timeout_ms
            &&& options.tls_context == cluster.session.tls_context
            &&& options.compression == cluster.session.compression
            &&& options.identity == cluster.session.identity
        }),
{
}

/// A user name and a password that are set are those of the session.
pub proof fn law_credentials_reach_the_session(
    cluster: CassClusterView,
    username: Seq<char>,
    password: Seq<char>,
)
    ensures
        (CassClusterView {
            auth_username: Some(username),
            auth_password: Some(password),
            ..cluster
        }).session_contents().user == Some((username, password)),
        (CassClusterView {
            auth_username: None,
            auth_password: None,
            ..cluster
        }).session_contents().user is None,
{
}

/// Options of the session, of the default execution profile and of load
/// balancing, and contact points, can be set in any order.
pub proof fn law_options_are_independent(
    cluster: CassClusterView,
    session: SessionOptionsView,
    settings: ExecutionProfileSettings,
    load_balancing: LoadBalancingConfigView,
    list: Option<Seq<char>>,
)
    ensures
        cluster.with_session(session).with_profile(settings) == cluster.with_profile(
            settings,
        ).with_session(session),
        cluster.with_session(session).with_load_balancing(load_balancing)
            == cluster.with_load_balancing(load_balancing).with_session(session),
        cluster.with_profile(settings).with_load_balancing(load_balancing)
            == cluster.with_load_balancing(load_balancing).with_profile(settings),
        after_contact_points(cluster.with_session(session), list) == after_contact_points(
            cluster,
            list,
        ).with_session(session),
        after_contact_points(cluster.with_profile(settings), list) == after_contact_points(
            cluster,
            list,
        ).with_profile(settings),
        after_contact_points(cluster.with_load_balancing(load_balancing), list)
            == after_contact_points(cluster, list).with_load_balancing(load_balancing),
{
}

/// A session authenticates exactly where a user name was set, and a valid
/// cluster never has a name without a password.
pub proof fn law_user_needs_name_and_password(cluster: CassClusterView)
    requires
        cluster.valid(),
    ensures
        cluster.session_contents().user is Some <==> cluster.auth_username is Some,
        cluster.session_contents().user matches Some(user) ==> user.0 == cluster.auth_username->0
            && user.1 == cluster.auth_password->0,
{
}

} // verus!
