//! Comma separated lists of contact points, and the node addresses that they
//! turn into.
use vstd::prelude::*;
use vstd::string::*;

verus! {

/// `String::push` appends one character to the end of the string.
pub assume_specification[ String::push ](s: &mut String, c: char)
    ensures
        final(s)@ == old(s)@.push(c),
;

/// The characters with the Unicode property White_Space.
pub open spec fn is_white_space(c: char) -> bool {
    let code = c as u32;
    ||| 0x09 <= code <= 0x0d
    ||| code == 0x20
    ||| code == 0x85
    ||| code == 0xa0
    ||| code == 0x1680
    ||| 0x2000 <= code <= 0x200a
    ||| code == 0x2028
    ||| code == 0x2029
    ||| code == 0x202f
    ||| code == 0x205f
    ||| code == 0x3000
}

/// `char::is_whitespace` is true of the characters with the property
/// White_Space, which `is_white_space` lists, and of no others.
pub assume_specification[ char::is_whitespace ](c: char) -> (res: bool)
    ensures
        res == is_white_space(c),
;

/// `s` without the white space in front.
pub open spec fn trim_front(s: Seq<char>) -> Seq<char>
    decreases s.len(),
{
    if s.len() > 0 && is_white_space(s[0]) {
        trim_front(s.drop_first())
    } else {
        s
    }
}

/// `s` without the white space at the end.
pub open spec fn trim_back(s: Seq<char>) -> Seq<char>
    decreases s.len(),
{
    if s.len() > 0 && is_white_space(s.last()) {
        trim_back(s.drop_last())
    } else {
        s
    }
}

/// `s` without the white space on either side.
pub open spec fn trimmed(s: Seq<char>) -> Seq<char> {
    trim_back(trim_front(s))
}

/// The pieces of `s` between its commas, empty ones included: one more than
/// there are commas.
pub open spec fn split_at_commas(s: Seq<char>) -> Seq<Seq<char>>
    decreases s.len(),
{
    if s.len() == 0 {
        seq![Seq::<char>::empty()]
    } else {
        let front = split_at_commas(s.drop_last());
        if s.last() == ',' {
            front.push(Seq::<char>::empty())
        } else {
            front.drop_last().push(front.last().push(s.last()))
        }
    }
}

/// The pieces, trimmed, without those of which nothing is left.
pub open spec fn trimmed_pieces(pieces: Seq<Seq<char>>) -> Seq<Seq<char>>
    decreases pieces.len(),
{
    if pieces.len() == 0 {
        Seq::empty()
    } else {
        let front = trimmed_pieces(pieces.drop_last());
        let piece = trimmed(pieces.last());
        if piece.len() == 0 {
            front
        } else {
            front.push(piece)
        }
    }
}

/// The contact points that a list names.
pub open spec fn listed_points(list: Seq<char>) -> Seq<Seq<char>> {
    trimmed_pieces(split_at_commas(list))
}

/// The list is empty: nothing but commas stands in it.
pub open spec fn is_blank_list(list: Seq<char>) -> bool {
    forall|i: int| 0 <= i < list.len() ==> list[i] == ','
}

/// What a contact point looks like: it is not empty, white space stands on
/// neither side of it and no comma in it.
pub open spec fn is_contact_point(point: Seq<char>) -> bool {
    &&& point.len() > 0
    &&& !is_white_space(point[0])
    &&& !is_white_space(point.last())
    &&& !point.contains(',')
}

/// The contact points after a list was set: an empty list clears them, any
/// other adds to them.
pub open spec fn set_points(points: Seq<Seq<char>>, list: Seq<char>) -> Seq<Seq<char>> {
    if is_blank_list(list) {
        Seq::empty()
    } else {
        points + listed_points(list)
    }
}

/// The texts of a sequence of strings.
pub open spec fn texts(strings: Seq<String>) -> Seq<Seq<char>> {
    strings.map_values(|s: String| s@)
}

/// The decimal digits of a number, without leading zeros.
pub open spec fn decimal(n: nat) -> Seq<char>
    decreases n,
{
    if n < 10 {
        seq![(48 + n) as char]
    } else {
        decimal(n / 10).push((48 + n % 10) as char)
    }
}

/// The address of a node: a contact point, a colon and the port.
pub open spec fn node_address(point: Seq<char>, port: u16) -> Seq<char> {
    point + seq![':'] + decimal(port as nat)
}

/// The address of every contact point, in order.
pub open spec fn node_addresses(points: Seq<Seq<char>>, port: u16) -> Seq<Seq<char>> {
    points.map_values(|point: Seq<char>| node_address(point, port))
}

/// The characters of a string.
fn characters(text: &str) -> (chars: Vec<char>)
    ensures
        chars@ == text@,
{
    let mut chars: Vec<char> = Vec::new();
    for c in iter: text.chars()
        invariant
            chars@ == iter.seq().take(iter.index()),
    {
        chars.push(c);
    }
    chars
}

/// The string of the characters from `from` up to, not including, `to`.
fn string_of(chars: &Vec<char>, from: usize, to: usize) -> (s: String)
    requires
        from <= to <= chars@.len(),
    ensures
        s@ == chars@.subrange(from as int, to as int),
{
    let mut s: String = String::new();
    let mut i: usize = from;
    while i < to
        invariant
            from <= i <= to <= chars@.len(),
            s@ == chars@.subrange(from as int, i as int),
        decreases to - i,
    {
        s.push(chars[i]);
        i = i + 1;
    }
    s
}

/// The text of a piece, trimmed.
fn trim(chars: &Vec<char>) -> (s: String)
    ensures
        s@ == trimmed(chars@),
{
    let mut from: usize = 0;
    assert(chars@.skip(0) == chars@);
    while from < chars.len() && chars[from].is_whitespace()
        invariant
            from <= chars@.len(),
            trim_front(chars@) == trim_front(chars@.skip(from as int)),
        decreases chars@.len() - from,
    {
        assert(chars@.skip(from as int).drop_first() == chars@.skip(from + 1));
        from = from + 1;
    }
    let ghost front = chars@.skip(from as int);
    let mut to: usize = chars.len();
    assert(front == chars@.subrange(from as int, to as int));
    while to > from && chars[to - 1].is_whitespace()
        invariant
            from <= to <= chars@.len(),
            trim_back(front) == trim_back(chars@.subrange(from as int, to as int)),
        decreases to,
    {
        assert(chars@.subrange(from as int, to as int).drop_last() == chars@.subrange(
            from as int,
            to - 1,
        ));
        to = to - 1;
    }
    string_of(chars, from, to)
}

/// Appends a piece to the contact points, trimmed, unless nothing is left of
/// it.
fn push_piece(points: &mut Vec<String>, piece: &Vec<char>)
    ensures
        texts(final(points)@) == if trimmed(piece@).len() == 0 {
            texts(old(points)@)
        } else {
            texts(old(points)@).push(trimmed(piece@))
        },
{
    let point: String = trim(piece);
    if !point.as_str().is_empty() {
        points.push(point);
        assert(texts(points@) =~= texts(old(points)@).push(trimmed(piece@)));
    }
}

/// Appends the contact points that `list` names to `points`.
pub fn append_listed_points(points: &mut Vec<String>, list: &str)
    ensures
        texts(final(points)@) == texts(old(points)@) + listed_points(list@),
{
    let chars: Vec<char> = characters(list);
    let mut piece: Vec<char> = Vec::new();
    let ghost mut pieces: Seq<Seq<char>> = Seq::empty();
    let ghost before = texts(points@);
    let mut i: usize = 0;
    assert(chars@.take(0).len() == 0);
    assert(before + trimmed_pieces(pieces) == before);
    while i < chars.len()
        invariant
            i <= chars@.len(),
            split_at_commas(chars@.take(i as int)) == pieces.push(piece@),
            texts(points@) == before + trimmed_pieces(pieces),
        decreases chars@.len() - i,
    {
        let c: char = chars[i];
        let ghost head = chars@.take(i as int);
        assert(chars@.take(i + 1).drop_last() == head);
        if c == ',' {
            push_piece(points, &piece);
            proof {
                lemma_trimmed_pieces_push(before, pieces, piece@);
                pieces = pieces.push(piece@);
            }
            piece = Vec::new();
        } else {
            assert(pieces.push(piece@).drop_last() == pieces);
            piece.push(c);
        }
        i = i + 1;
    }
    push_piece(points, &piece);
    proof {
        lemma_trimmed_pieces_push(before, pieces, piece@);
        assert(chars@.take(i as int) == list@);
    }
}

/// Whether the list is empty: nothing but commas stands in it.
pub fn is_blank(list: &str) -> (blank: bool)
    ensures
        blank == is_blank_list(list@),
        blank <==> forall|i: int| 0 <= i < list@.len() ==> list@[i] == ',',
{
    let chars: Vec<char> = characters(list);
    let mut i: usize = 0;
    while i < chars.len()
        invariant
            i <= chars@.len(),
            chars@ == list@,
            forall|j: int| 0 <= j < i ==> chars@[j] == ',',
        decreases chars@.len() - i,
    {
        if chars[i] != ',' {
            return false;
        }
        i = i + 1;
    }
    true
}

/// Appends the decimal digits of a number to a string.
fn push_decimal(s: &mut String, n: u16)
    ensures
        final(s)@ == old(s)@ + decimal(n as nat),
    decreases n,
{
    if n >= 10 {
        push_decimal(s, n / 10);
    }
    let digit: u8 = 48 + (n % 10) as u8;
    s.push(digit as char);
    assert(s@ =~= old(s)@ + decimal(n as nat));
}

/// The addresses of the nodes to contact first: every contact point followed
/// by a colon and the port.
pub fn known_nodes(points: &Vec<String>, port: u16) -> (nodes: Vec<String>)
    ensures
        texts(nodes@) == node_addresses(texts(points@), port),
        nodes@.len() == points@.len(),
        forall|i: int|
            0 <= i < points@.len() ==> (#[trigger] nodes@[i])@ == points@[i]@ + seq![':'] + decimal(
                port as nat,
            ),
{
    let mut nodes: Vec<String> = Vec::new();
    let mut i: usize = 0;
    while i < points.len()
        invariant
            i <= points@.len(),
            nodes@.len() == i,
            forall|j: int|
                0 <= j < i ==> (#[trigger] nodes@[j])@ == points@[j]@ + seq![':'] + decimal(
                    port as nat,
                ),
            texts(nodes@) == node_addresses(texts(points@.take(i as int)), port),
        decreases points@.len() - i,
    {
        let mut node: String = points[i].clone();
        node.push(':');
        push_decimal(&mut node, port);
        assert(node@ =~= node_address(points@[i as int]@, port));
        let ghost done = texts(points@.take(i as int));
        assert(texts(points@.take(i + 1)) =~= done.push(points@[i as int]@));
        assert(texts(nodes@.push(node)) =~= texts(nodes@).push(node@));
        assert(node_addresses(done.push(points@[i as int]@), port) =~= node_addresses(
            done,
            port,
        ).push(node@));
        nodes.push(node);
        i = i + 1;
    }
    assert(points@.take(i as int) == points@);
    nodes
}

proof fn lemma_trimmed_pieces_push(before: Seq<Seq<char>>, pieces: Seq<Seq<char>>, piece: Seq<char>)
    ensures
        before + trimmed_pieces(pieces.push(piece)) == if trimmed(piece).len() == 0 {
            before + trimmed_pieces(pieces)
        } else {
            (before + trimmed_pieces(pieces)).push(trimmed(piece))
        },
{
    assert(pieces.push(piece).drop_last() == pieces);
}

proof fn lemma_trim_front(s: Seq<char>)
    ensures
        trim_front(s).len() > 0 ==> !is_white_space(trim_front(s)[0]),
        forall|c: char| trim_front(s).contains(c) ==> s.contains(c),
    decreases s.len(),
{
    if s.len() > 0 && is_white_space(s[0]) {
        let rest = s.drop_first();
        lemma_trim_front(rest);
        assert forall|c: char| trim_front(s).contains(c) implies s.contains(c) by {
            let i = choose|i: int| 0 <= i < rest.len() && rest[i] == c;
            assert(rest.contains(c));
            assert(s[i + 1] == c);
        }
    }
}

proof fn lemma_trim_back(s: Seq<char>)
    ensures
        trim_back(s).len() > 0 ==> !is_white_space(trim_back(s).last()) && trim_back(s)[0] == s[0],
        forall|c: char| trim_back(s).contains(c) ==> s.contains(c),
    decreases s.len(),
{
    if s.len() > 0 && is_white_space(s.last()) {
        let rest = s.drop_last();
        lemma_trim_back(rest);
        assert forall|c: char| trim_back(s).contains(c) implies s.contains(c) by {
            let i = choose|i: int| 0 <= i < rest.len() && rest[i] == c;
            assert(rest.contains(c));
            assert(s[i] == c);
        }
    }
}

proof fn lemma_split_has_pieces(s: Seq<char>)
    ensures
        split_at_commas(s).len() > 0,
        forall|i: int|
            0 <= i < split_at_commas(s).len() ==> !(#[trigger] split_at_commas(s)[i]).contains(','),
    decreases s.len(),
{
    if s.len() > 0 {
        let front = split_at_commas(s.drop_last());
        lemma_split_has_pieces(s.drop_last());
        assert forall|i: int| 0 <= i < split_at_commas(s).len() implies !(
        #[trigger] split_at_commas(s)[i]).contains(',') by {
            let piece = split_at_commas(s)[i];
            if s.last() != ',' && i == front.len() - 1 {
                assert(!front[i].contains(','));
                assert forall|j: int| 0 <= j < piece.len() implies piece[j] != ',' by {
                    if j < front[i].len() {
                        assert(front[i][j] == piece[j]);
                    }
                }
            } else if i < front.len() {
                assert(piece == front[i]);
            }
        }
    }
}

proof fn lemma_trimmed_pieces_are_points(pieces: Seq<Seq<char>>)
    requires
        forall|i: int| 0 <= i < pieces.len() ==> !(#[trigger] pieces[i]).contains(','),
    ensures
        forall|i: int|
            0 <= i < trimmed_pieces(pieces).len() ==> is_contact_point(
                #[trigger] trimmed_pieces(pieces)[i],
            ),
    decreases pieces.len(),
{
    if pieces.len() > 0 {
        let front = pieces.drop_last();
        assert(forall|i: int| 0 <= i < front.len() ==> front[i] == pieces[i]);
        lemma_trimmed_pieces_are_points(front);
        let piece = pieces.last();
        lemma_trim_front(piece);
        lemma_trim_back(trim_front(piece));
        assert(!piece.contains(','));
        assert(trimmed(piece).len() > 0 ==> trim_front(piece).len() > 0) by {
            if trimmed(piece).len() > 0 {
                assert(trimmed(piece).contains(trimmed(piece)[0]));
            }
        }
        assert(trimmed(piece).len() > 0 ==> is_contact_point(trimmed(piece)));
        let kept = trimmed_pieces(front);
        assert forall|i: int| 0 <= i < trimmed_pieces(pieces).len() implies is_contact_point(
            #[trigger] trimmed_pieces(pieces)[i],
        ) by {
            if i < kept.len() {
                assert(trimmed_pieces(pieces)[i] == kept[i]);
            }
        }
    }
}

/// Every point that a list names is a contact point.
pub proof fn lemma_listed_points(list: Seq<char>)
    ensures
        forall|i: int|
            0 <= i < listed_points(list).len() ==> is_contact_point(
                #[trigger] listed_points(list)[i],
            ),
{
    lemma_split_has_pieces(list);
    lemma_trimmed_pieces_are_points(split_at_commas(list));
}

proof fn lemma_trimmed_pieces_concat(a: Seq<Seq<char>>, b: Seq<Seq<char>>)
    ensures
        trimmed_pieces(a + b) == trimmed_pieces(a) + trimmed_pieces(b),
    decreases b.len(),
{
    if b.len() == 0 {
        assert(a + b == a);
        assert(trimmed_pieces(a) + trimmed_pieces(b) == trimmed_pieces(a));
    } else {
        lemma_trimmed_pieces_concat(a, b.drop_last());
        assert((a + b).drop_last() == a + b.drop_last());
        assert(trimmed_pieces(a + b) =~= trimmed_pieces(a) + trimmed_pieces(b));
    }
}

proof fn lemma_split_concat(a: Seq<char>, b: Seq<char>)
    ensures
        split_at_commas(a + seq![','] + b) == split_at_commas(a) + split_at_commas(b),
    decreases b.len(),
{
    let whole = a + seq![','] + b;
    lemma_split_has_pieces(b);
    if b.len() == 0 {
        assert(whole.drop_last() == a);
        assert(split_at_commas(whole) =~= split_at_commas(a) + split_at_commas(b));
    } else {
        lemma_split_concat(a, b.drop_last());
        lemma_split_has_pieces(b.drop_last());
        assert(whole.drop_last() == a + seq![','] + b.drop_last());
        assert(split_at_commas(whole) =~= split_at_commas(a) + split_at_commas(b));
    }
}

/// Two lists joined by a comma name what the first names, and then what the
/// second names.
pub proof fn lemma_listed_points_concat(a: Seq<char>, b: Seq<char>)
    ensures
        listed_points(a + seq![','] + b) == listed_points(a) + listed_points(b),
{
    lemma_split_concat(a, b);
    lemma_trimmed_pieces_concat(split_at_commas(a), split_at_commas(b));
}

/// A list that is blank names nothing.
pub proof fn lemma_blank_list_names_nothing(list: Seq<char>)
    requires
        is_blank_list(list),
    ensures
        listed_points(list) == Seq::<Seq<char>>::empty(),
    decreases list.len(),
{
    let empty = Seq::<char>::empty();
    if list.len() == 0 {
        reveal_with_fuel(trimmed_pieces, 2);
        assert(seq![empty].drop_last() == Seq::<Seq<char>>::empty());
    } else {
        lemma_blank_list_names_nothing(list.drop_last());
        assert(split_at_commas(list).drop_last() == split_at_commas(list.drop_last()));
    }
}

} // verus!
