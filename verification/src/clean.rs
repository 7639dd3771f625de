//! Clean paths: what is left of a path without the elements that lead nowhere.
//!
//! Here a path is text. That its characters may stand for the bytes of a path is for `path`.

use vstd::prelude::*;

use crate::text::{equals, last_of, lemma_last_where, lemma_last_where_found};

verus! {

// ---- What a clean path is ----

/// The elements of a path: what stands between its separators, and before and behind them.
pub open spec fn elements(s: Seq<char>) -> Seq<Seq<char>>
    decreases s.len(),
{
    let n = last_of(s, '/');
    if 0 <= n < s.len() {
        elements(s.take(n)).push(s.skip(n + 1))
    } else {
        seq![s]
    }
}

/// The names on the way so far, once one more element is taken: an empty one and a dot lead
/// nowhere, and two dots lead back over the last name. From the root they lead no further back;
/// else they are kept where there is no name to go back over.
pub open spec fn taken(names: Seq<Seq<char>>, element: Seq<char>, from_root: bool) -> Seq<
    Seq<char>,
> {
    if element.len() == 0 || element == seq!['.'] {
        names
    } else if element != seq!['.', '.'] {
        names.push(element)
    } else if names.len() > 0 && names.last() != seq!['.', '.'] {
        names.drop_last()
    } else if from_root {
        names
    } else {
        names.push(element)
    }
}

/// The names on the way that the elements lead.
pub open spec fn way(elements: Seq<Seq<char>>, from_root: bool) -> Seq<Seq<char>>
    decreases elements.len(),
{
    if elements.len() == 0 {
        Seq::empty()
    } else {
        taken(way(elements.drop_last(), from_root), elements.last(), from_root)
    }
}

/// The names, a separator before each.
pub open spec fn spelled(names: Seq<Seq<char>>) -> Seq<char>
    decreases names.len(),
{
    if names.len() == 0 {
        Seq::empty()
    } else {
        spelled(names.drop_last()).push('/') + names.last()
    }
}

/// The path begins at the root.
pub open spec fn from_root(s: Seq<char>) -> bool {
    s.len() > 0 && s[0] == '/'
}

/// The path with nothing but the names on its way. Where there are none, it is the root, or the
/// directory that it is taken from.
pub open spec fn cleaned_text(s: Seq<char>) -> Seq<char> {
    let names = way(elements(s), from_root(s));
    if from_root(s) {
        root_path(names)
    } else if names.len() == 0 {
        seq!['.']
    } else {
        spelled(names).skip(1)
    }
}

/// The path that the names make from the root.
pub open spec fn root_path(names: Seq<Seq<char>>) -> Seq<char> {
    if names.len() == 0 {
        seq!['/']
    } else {
        spelled(names)
    }
}

/// The text names something itself: it is neither empty nor one or two dots, and no separator is
/// in it.
pub open spec fn proper_name(s: Seq<char>) -> bool {
    s.len() > 0 && s != seq!['.'] && s != seq!['.', '.'] && !s.contains('/')
}

pub open spec fn proper_names(names: Seq<Seq<char>>) -> bool {
    forall|i: int| 0 <= i < names.len() ==> proper_name(#[trigger] names[i])
}

/// The text is that of a clean path from the root: proper names with a separator before each, or
/// the root alone.
pub open spec fn clean_text_path(s: Seq<char>) -> bool {
    exists|names: Seq<Seq<char>>| #[trigger] proper_names(names) && s == root_path(names)
}

// ---- Elements ----

/// Where a last separator is followed by no other.
proof fn lemma_last_separator(x: Seq<char>, y: Seq<char>)
    requires
        !y.contains('/'),
    ensures
        last_of(x.push('/') + y, '/') == x.len(),
{
    let s = x.push('/') + y;
    assert forall|i: int| x.len() < i < s.len() implies !equals('/')(#[trigger] s[i]) by {
        assert(s[i] == y[i - x.len() - 1]);
        assert(y.contains(y[i - x.len() - 1]));
    }
    assert(s[x.len() as int] == '/');
    lemma_last_where(s, equals('/'), s.len() as int, x.len() as int);
}

/// No separator is in an element, and nothing that is not in the path.
proof fn lemma_elements(s: Seq<char>)
    ensures
        forall|i: int|
            0 <= i < elements(s).len() ==> !(#[trigger] elements(s)[i]).contains('/'),
        forall|i: int, c: char|
            0 <= i < elements(s).len() && #[trigger] elements(s)[i].contains(c) ==> s.contains(c),
    decreases s.len(),
{
    let n = last_of(s, '/');
    lemma_last_where_found(s, equals('/'), s.len() as int);
    if 0 <= n < s.len() {
        let last = s.skip(n + 1);
        lemma_elements(s.take(n));
        assert forall|i: int| 0 <= i < elements(s).len() implies !(
        #[trigger] elements(s)[i]).contains('/') by {
            if i == elements(s).len() - 1 {
                assert forall|k: int| 0 <= k < last.len() implies last[k] != '/' by {
                    assert(!equals('/')(s[n + 1 + k]));
                }
            } else {
                assert(elements(s)[i] == elements(s.take(n))[i]);
            }
        }
        assert forall|i: int, c: char|
            0 <= i < elements(s).len() && #[trigger] elements(s)[i].contains(
                c,
            ) implies s.contains(c) by {
            if i == elements(s).len() - 1 {
                let k = choose|k: int| 0 <= k < last.len() && last[k] == c;
                assert(s[n + 1 + k] == c);
            } else {
                assert(elements(s.take(n))[i].contains(c));
                let k = choose|k: int| 0 <= k < n && s.take(n)[k] == c;
                assert(s[k] == c);
            }
        }
    } else {
        assert forall|k: int| 0 <= k < s.len() implies s[k] != '/' by {
            assert(!equals('/')(s[k]));
        }
    }
}

/// The elements of a path that is put behind another with a separator come behind those of it.
proof fn lemma_elements_of_both(x: Seq<char>, y: Seq<char>)
    ensures
        elements(x.push('/') + y) == elements(x) + elements(y),
    decreases y.len(),
{
    let s = x.push('/') + y;
    let n = last_of(y, '/');
    lemma_last_where_found(y, equals('/'), y.len() as int);
    if 0 <= n < y.len() {
        let front = y.take(n);
        let back = y.skip(n + 1);
        assert forall|k: int| 0 <= k < back.len() implies back[k] != '/' by {
            assert(!equals('/')(y[n + 1 + k]));
        }
        assert(y[n] == '/');
        assert(s =~= (x.push('/') + front).push('/') + back);
        lemma_last_separator(x.push('/') + front, back);
        lemma_elements_of_both(x, front);
        assert(s.take(x.len() + 1 + n) =~= x.push('/') + front);
        assert(s.skip(x.len() + 1 + n + 1) =~= back);
        assert(elements(s) =~= elements(x) + elements(y));
    } else {
        assert forall|k: int| 0 <= k < y.len() implies y[k] != '/' by {
            assert(!equals('/')(y[k]));
        }
        lemma_last_separator(x, y);
        assert(s.take(x.len() as int) =~= x);
        assert(s.skip((x.len() + 1) as int) =~= y);
        assert(elements(s) =~= elements(x) + elements(y));
    }
}

/// Text without a separator is its own one element.
proof fn lemma_one_element(s: Seq<char>)
    requires
        !s.contains('/'),
    ensures
        elements(s) == seq![s],
{
    assert forall|i: int| -1 < i < s.len() implies !equals('/')(#[trigger] s[i]) by {
        assert(s.contains(s[i]));
    }
    lemma_last_where(s, equals('/'), s.len() as int, -1);
}

/// The elements of spelled names are those names, behind an empty one.
proof fn lemma_elements_of_spelled(names: Seq<Seq<char>>)
    requires
        proper_names(names),
    ensures
        elements(spelled(names)) == seq![Seq::<char>::empty()] + names,
    decreases names.len(),
{
    if names.len() == 0 {
        lemma_one_element(Seq::empty());
        assert(elements(spelled(names)) =~= seq![Seq::<char>::empty()] + names);
    } else {
        let front = names.drop_last();
        assert(proper_name(names[names.len() - 1]));
        assert forall|i: int| 0 <= i < front.len() implies proper_name(#[trigger] front[i]) by {
            assert(proper_name(names[i]));
        }
        lemma_elements_of_spelled(front);
        lemma_elements_of_both(spelled(front), names.last());
        lemma_one_element(names.last());
        assert(elements(spelled(names)) =~= seq![Seq::<char>::empty()] + names);
    }
}

// ---- Ways ----

/// A way holds only elements.
proof fn lemma_way(elements: Seq<Seq<char>>, from_root: bool)
    ensures
        forall|i: int|
            0 <= i < way(elements, from_root).len() ==> elements.contains(
                #[trigger] way(elements, from_root)[i],
            ),
        from_root ==> forall|i: int|
            0 <= i < way(elements, from_root).len() ==> {
                let name = #[trigger] way(elements, from_root)[i];
                name.len() > 0 && name != seq!['.'] && name != seq!['.', '.']
            },
    decreases elements.len(),
{
    if elements.len() > 0 {
        let front = elements.drop_last();
        lemma_way(front, from_root);
        assert forall|i: int| 0 <= i < way(elements, from_root).len() implies elements.contains(
            #[trigger] way(elements, from_root)[i],
        ) by {
            let name = way(elements, from_root)[i];
            if i < way(front, from_root).len() && name == way(front, from_root)[i] {
                let k = choose|k: int| 0 <= k < front.len() && front[k] == name;
                assert(elements[k] == name);
            } else {
                assert(name == elements[elements.len() - 1]);
            }
        }
    }
}

/// What one way leads on to depends on nothing but its names.
proof fn lemma_way_goes_on(
    a: Seq<Seq<char>>,
    b: Seq<Seq<char>>,
    more: Seq<Seq<char>>,
    from_root: bool,
)
    requires
        way(a, from_root) == way(b, from_root),
    ensures
        way(a + more, from_root) == way(b + more, from_root),
    decreases more.len(),
{
    if more.len() == 0 {
        assert(a + more =~= a);
        assert(b + more =~= b);
    } else {
        lemma_way_goes_on(a, b, more.drop_last(), from_root);
        assert((a + more).drop_last() =~= a + more.drop_last());
        assert((b + more).drop_last() =~= b + more.drop_last());
    }
}

/// The way that proper names lead holds all of them.
proof fn lemma_way_of_names(names: Seq<Seq<char>>, from_root: bool)
    requires
        proper_names(names),
    ensures
        way(seq![Seq::<char>::empty()] + names, from_root) == names,
    decreases names.len(),
{
    let all = seq![Seq::<char>::empty()] + names;
    if names.len() == 0 {
        assert(all.drop_last() =~= Seq::empty());
        reveal_with_fuel(way, 2);
        assert(way(all, from_root) =~= names);
    } else {
        let front = names.drop_last();
        assert(proper_name(names[names.len() - 1]));
        assert forall|i: int| 0 <= i < front.len() implies proper_name(#[trigger] front[i]) by {
            assert(proper_name(names[i]));
        }
        lemma_way_of_names(front, from_root);
        assert(all.drop_last() =~= seq![Seq::<char>::empty()] + front);
        assert(front.push(names.last()) =~= names);
    }
}

// ---- Spelling ----

/// Spelled names begin with a separator, and hold nothing but separators and what the names hold.
proof fn lemma_spelled(names: Seq<Seq<char>>)
    ensures
        names.len() > 0 ==> spelled(names).len() > 0 && spelled(names)[0] == '/',
        forall|c: char| #[trigger]
            spelled(names).contains(c) ==> c == '/' || exists|i: int|
                0 <= i < names.len() && (#[trigger] names[i]).contains(c),
    decreases names.len(),
{
    if names.len() > 0 {
        let front = names.drop_last();
        let s = spelled(front);
        lemma_spelled(front);
        assert forall|c: char| #[trigger] spelled(names).contains(c) implies c == '/' || exists|
            i: int,
        | 0 <= i < names.len() && (#[trigger] names[i]).contains(c) by {
            let k = choose|k: int| 0 <= k < spelled(names).len() && spelled(names)[k] == c;
            if k < s.len() {
                assert(s[k] == c);
                assert(s.contains(c));
                if c != '/' {
                    let i = choose|i: int|
                        0 <= i < front.len() && (#[trigger] front[i]).contains(c);
                    assert(names[i].contains(c));
                }
            } else if k > s.len() {
                assert(names.last()[k - s.len() - 1] == c);
                assert(names[names.len() - 1].contains(c));
            }
        }
        if front.len() == 0 {
            assert(spelled(names)[0] == '/');
        } else {
            assert(spelled(names)[0] == s[0]);
        }
    }
}

// ---- Clean paths ----

/// In a clean path there is nothing but separators, dots, and what is in the path.
pub proof fn lemma_cleaned_chars(s: Seq<char>)
    ensures
        forall|i: int|
            0 <= i < cleaned_text(s).len() ==> (#[trigger] cleaned_text(s)[i] == '/'
                || cleaned_text(s)[i] == '.' || s.contains(cleaned_text(s)[i])),
{
    let names = way(elements(s), from_root(s));
    lemma_elements(s);
    lemma_way(elements(s), from_root(s));
    lemma_spelled(names);
    assert forall|i: int| 0 <= i < cleaned_text(s).len() implies (#[trigger] cleaned_text(s)[i]
        == '/' || cleaned_text(s)[i] == '.' || s.contains(cleaned_text(s)[i])) by {
        let c = cleaned_text(s)[i];
        if names.len() > 0 && c != '/' {
            assert(spelled(names).contains(c)) by {
                assert(spelled(names)[if from_root(s) {
                    i
                } else {
                    i + 1
                }] == c);
            }
            let k = choose|k: int| 0 <= k < names.len() && (#[trigger] names[k]).contains(c);
            let j = choose|j: int| 0 <= j < elements(s).len() && elements(s)[j] == names[k];
            assert(elements(s)[j].contains(c));
        }
    }
}

/// A path from the root becomes a clean one.
pub proof fn lemma_cleaned_is_clean(s: Seq<char>)
    requires
        from_root(s),
    ensures
        clean_text_path(cleaned_text(s)),
{
    let names = way(elements(s), true);
    lemma_elements(s);
    lemma_way(elements(s), true);
    assert forall|i: int| 0 <= i < names.len() implies proper_name(#[trigger] names[i]) by {
        let j = choose|j: int| 0 <= j < elements(s).len() && elements(s)[j] == names[i];
        assert(!elements(s)[j].contains('/'));
    }
    assert(proper_names(names));
}

/// A clean path is from the root, and stays as it is.
pub proof fn lemma_clean_stays(s: Seq<char>)
    requires
        clean_text_path(s),
    ensures
        from_root(s),
        cleaned_text(s) == s,
{
    let names = choose|names: Seq<Seq<char>>| #[trigger]
        proper_names(names) && s == root_path(names);
    if names.len() == 0 {
        lemma_one_element(Seq::empty());
        lemma_elements_of_both(Seq::empty(), Seq::empty());
        assert(Seq::<char>::empty().push('/') + Seq::<char>::empty() =~= s);
        assert(elements(s) =~= seq![Seq::<char>::empty(), Seq::<char>::empty()]);
        reveal_with_fuel(way, 3);
        assert(elements(s).drop_last().drop_last() =~= Seq::empty());
        assert(way(elements(s), true) =~= Seq::empty());
    } else {
        lemma_spelled(names);
        lemma_elements_of_spelled(names);
        lemma_way_of_names(names, true);
    }
}

/// Two dots take away the name before them: behind `front`, a name and two dots lead nowhere.
pub proof fn law_dots_take_the_name_away(front: Seq<char>, name: Seq<char>, rest: Seq<char>)
    requires
        proper_name(name),
        rest.len() == 0 || rest[0] == '/',
        front.len() + rest.len() > 0,
    ensures
        cleaned_text(front + seq!['/'] + name + seq!['/', '.', '.'] + rest) == cleaned_text(
            front + rest,
        ),
{
    let dots = seq!['.', '.'];
    let there = front.push('/') + name;
    let back = there.push('/') + dots;
    let root = from_root(front + rest);
    assert(!dots.contains('/'));
    lemma_elements_of_both(front, name);
    lemma_one_element(name);
    lemma_elements_of_both(there, dots);
    lemma_one_element(dots);
    let way_there = elements(front).push(name);
    assert(elements(there) =~= way_there);
    assert(elements(back) =~= way_there.push(dots));
    assert(elements(back).drop_last() =~= way_there);
    assert(way_there.drop_last() =~= elements(front));
    reveal_with_fuel(way, 3);
    assert(way(elements(front), root).push(name).drop_last() =~= way(elements(front), root));
    assert(way(elements(back), root) == way(elements(front), root));
    let whole = front + seq!['/'] + name + seq!['/', '.', '.'] + rest;
    if rest.len() == 0 {
        assert(whole =~= back);
        assert(front + rest =~= front);
        assert(whole[0] == front[0]);
    } else {
        let tail = rest.drop_first();
        assert(whole =~= back.push('/') + tail);
        assert(front + rest =~= front.push('/') + tail);
        lemma_elements_of_both(back, tail);
        lemma_elements_of_both(front, tail);
        lemma_way_goes_on(elements(back), elements(front), elements(tail), root);
        assert(whole[0] == (front + rest)[0]);
    }
}

/// A dot leads nowhere.
pub proof fn law_dot_leads_nowhere(front: Seq<char>, rest: Seq<char>)
    requires
        rest.len() == 0 || rest[0] == '/',
        front.len() + rest.len() > 0,
    ensures
        cleaned_text(front + seq!['/', '.'] + rest) == cleaned_text(front + rest),
{
    let dot = seq!['.'];
    let there = front.push('/') + dot;
    let whole = front + seq!['/', '.'] + rest;
    let root = from_root(front + rest);
    assert(!dot.contains('/'));
    lemma_elements_of_both(front, dot);
    lemma_one_element(dot);
    assert(elements(there) =~= elements(front).push(dot));
    assert(elements(there).drop_last() =~= elements(front));
    assert(way(elements(there), root) == way(elements(front), root));
    if rest.len() == 0 {
        assert(whole =~= there);
        assert(front + rest =~= front);
        assert(whole[0] == front[0]);
    } else {
        let tail = rest.drop_first();
        assert(whole =~= there.push('/') + tail);
        assert(front + rest =~= front.push('/') + tail);
        lemma_elements_of_both(there, tail);
        lemma_elements_of_both(front, tail);
        lemma_way_goes_on(elements(there), elements(front), elements(tail), root);
        assert(whole[0] == (front + rest)[0]);
    }
}

/// Two separators are one, and one at the end is none.
pub proof fn law_separators_in_a_row(front: Seq<char>, rest: Seq<char>)
    ensures
        cleaned_text(front + seq!['/', '/'] + rest) == cleaned_text(front + seq!['/'] + rest),
        front.len() > 0 ==> cleaned_text(front + seq!['/']) == cleaned_text(front),
{
    let none = Seq::<char>::empty();
    let there = front.push('/') + none;
    let root = from_root(front.push('/') + rest);
    lemma_elements_of_both(front, none);
    lemma_one_element(none);
    assert(elements(there) =~= elements(front).push(none));
    assert(elements(there).drop_last() =~= elements(front));
    assert(way(elements(there), root) == way(elements(front), root));
    assert(front + seq!['/', '/'] + rest =~= there.push('/') + rest);
    assert(front + seq!['/'] + rest =~= front.push('/') + rest);
    lemma_elements_of_both(there, rest);
    lemma_elements_of_both(front, rest);
    lemma_way_goes_on(elements(there), elements(front), elements(rest), root);
    assert((there.push('/') + rest)[0] == (front.push('/') + rest)[0]);
    if front.len() > 0 {
        assert(front + seq!['/'] =~= there);
        assert(there[0] == front[0]);
        assert(way(elements(there), from_root(front)) == way(elements(front), from_root(front)));
    }
}

/// From the root two dots lead to the root.
pub proof fn law_root_has_no_parent(rest: Seq<char>)
    requires
        rest.len() == 0 || rest[0] == '/',
    ensures
        cleaned_text(seq!['/', '.', '.'] + rest) == cleaned_text(seq!['/'] + rest),
{
    let none = Seq::<char>::empty();
    let dots = seq!['.', '.'];
    let up = none.push('/') + dots;
    let root = none.push('/') + none;
    assert(!dots.contains('/'));
    lemma_elements_of_both(none, dots);
    lemma_elements_of_both(none, none);
    lemma_one_element(none);
    lemma_one_element(dots);
    assert(elements(up) =~= seq![none, dots]);
    assert(elements(root) =~= seq![none, none]);
    reveal_with_fuel(way, 3);
    assert(elements(up).drop_last() =~= seq![none]);
    assert(elements(root).drop_last() =~= seq![none]);
    assert(seq![none].drop_last() =~= Seq::empty());
    assert(way(elements(up), true) == way(elements(root), true));
    assert(seq!['/', '.', '.'] + rest =~= up + rest);
    assert(seq!['/'] + rest =~= root + rest);
    if rest.len() == 0 {
        assert(up + rest =~= up);
        assert(root + rest =~= root);
    } else {
        let tail = rest.drop_first();
        assert(up + rest =~= up.push('/') + tail);
        assert(root + rest =~= root.push('/') + tail);
        lemma_elements_of_both(up, tail);
        lemma_elements_of_both(root, tail);
        lemma_way_goes_on(elements(up), elements(root), elements(tail), true);
    }
}

/// A path of proper names from the root stays as it is.
pub proof fn law_proper_names_stay(names: Seq<Seq<char>>)
    requires
        proper_names(names),
        names.len() > 0,
    ensures
        cleaned_text(spelled(names)) == spelled(names),
{
    assert(spelled(names) == root_path(names));
    lemma_clean_stays(spelled(names));
}

/// A name is proper just where it is not empty, not one or two dots, and holds no separator; names
/// are spelled with a separator before each.
pub proof fn law_names_and_their_spelling(names: Seq<Seq<char>>, name: Seq<char>)
    ensures
        proper_name(name) == (name.len() > 0 && !name.contains('/') && !(name.len() == 1 && name[0]
            == '.') && !(name.len() == 2 && name[0] == '.' && name[1] == '.')),
        spelled(Seq::empty()) == Seq::<char>::empty(),
        spelled(names.push(name)) == spelled(names) + seq!['/'] + name,
{
    if name.len() == 1 && name[0] == '.' {
        assert(name =~= seq!['.']);
    }
    if name.len() == 2 && name[0] == '.' && name[1] == '.' {
        assert(name =~= seq!['.', '.']);
    }
    assert(names.push(name).drop_last() =~= names);
    assert(spelled(names).push('/') =~= spelled(names) + seq!['/']);
}

/// A relative path of two dots, as often as may be, and proper names stays as it is.
pub proof fn law_leading_dots_stay(names: Seq<Seq<char>>, ups: int)
    requires
        names.len() > 0,
        0 <= ups <= names.len(),
        forall|i: int| 0 <= i < ups ==> #[trigger] names[i] == seq!['.', '.'],
        forall|i: int| ups <= i < names.len() ==> proper_name(#[trigger] names[i]),
    ensures
        cleaned_text(spelled(names).skip(1)) == spelled(names).skip(1),
{
    let none = Seq::<char>::empty();
    let path = spelled(names).skip(1);
    lemma_spelled(names);
    lemma_elements_of_dotted(names, ups);
    lemma_way_of_dotted(names, ups);
    assert(spelled(names) =~= none.push('/') + path);
    lemma_elements_of_both(none, path);
    lemma_one_element(none);
    assert(elements(path) =~= names) by {
        assert(elements(spelled(names)) == seq![none] + elements(path));
        assert((seq![none] + names).len() == (seq![none] + elements(path)).len());
        assert forall|i: int| 0 <= i < names.len() implies elements(path)[i] == names[i] by {
            assert((seq![none] + names)[i + 1] == (seq![none] + elements(path))[i + 1]);
        }
    }
    lemma_dotted_is_relative(names, ups);
}

/// The names are two dots, as often as may be, and then proper ones.
pub open spec fn dotted(names: Seq<Seq<char>>, ups: int) -> bool {
    &&& forall|i: int| 0 <= i < ups && i < names.len() ==> #[trigger] names[i] == seq!['.', '.']
    &&& forall|i: int| ups <= i < names.len() ==> proper_name(#[trigger] names[i])
}

proof fn lemma_dotted_front(names: Seq<Seq<char>>, ups: int)
    requires
        dotted(names, ups),
        0 <= ups,
        names.len() > 0,
    ensures
        dotted(names.drop_last(), ups),
        names.last() == seq!['.', '.'] || proper_name(names.last()),
        names.last().len() > 0,
        !names.last().contains('/'),
{
    let front = names.drop_last();
    assert forall|i: int| 0 <= i < ups && i < front.len() implies #[trigger] front[i] == seq![
        '.',
        '.',
    ] by {
        assert(front[i] == names[i]);
    }
    assert forall|i: int| ups <= i < front.len() implies proper_name(#[trigger] front[i]) by {
        assert(front[i] == names[i]);
    }
    let last = names[names.len() - 1];
    assert(last == seq!['.', '.'] || proper_name(last));
    assert(!seq!['.', '.'].contains('/'));
}

proof fn lemma_elements_of_dotted(names: Seq<Seq<char>>, ups: int)
    requires
        dotted(names, ups),
        0 <= ups,
    ensures
        elements(spelled(names)) == seq![Seq::<char>::empty()] + names,
    decreases names.len(),
{
    if names.len() == 0 {
        lemma_one_element(Seq::empty());
        assert(elements(spelled(names)) =~= seq![Seq::<char>::empty()] + names);
    } else {
        let front = names.drop_last();
        lemma_dotted_front(names, ups);
        lemma_elements_of_dotted(front, ups);
        lemma_elements_of_both(spelled(front), names.last());
        lemma_one_element(names.last());
        assert(elements(spelled(names)) =~= seq![Seq::<char>::empty()] + names);
    }
}

proof fn lemma_way_of_dotted(names: Seq<Seq<char>>, ups: int)
    requires
        dotted(names, ups),
        0 <= ups,
    ensures
        way(names, false) == names,
    decreases names.len(),
{
    if names.len() > 0 {
        let front = names.drop_last();
        lemma_dotted_front(names, ups);
        lemma_way_of_dotted(front, ups);
        assert(front.push(names.last()) =~= names);
        if names.last() == seq!['.', '.'] && front.len() > 0 {
            assert(names.len() - 1 < ups) by {
                if ups <= names.len() - 1 {
                    assert(proper_name(names[names.len() - 1]));
                }
            }
            assert(names[front.len() - 1] == seq!['.', '.']);
            assert(front.last() == names[front.len() - 1]);
        }
    }
}

proof fn lemma_dotted_is_relative(names: Seq<Seq<char>>, ups: int)
    requires
        dotted(names, ups),
        0 <= ups,
        names.len() > 0,
    ensures
        spelled(names).len() > 1,
        spelled(names)[1] != '/',
    decreases names.len(),
{
    let front = names.drop_last();
    lemma_dotted_front(names, ups);
    if front.len() == 0 {
        assert(spelled(front) =~= Seq::empty());
        assert(spelled(names)[1] == names.last()[0]);
        assert(names.last().contains(names.last()[0]));
    } else {
        lemma_dotted_is_relative(front, ups);
        assert(spelled(names)[1] == spelled(front)[1]);
    }
}

/// A dot before a relative path leads nowhere, and a path that leads nowhere is a dot.
pub proof fn law_leading_dot(rest: Seq<char>)
    requires
        !(rest.len() > 0 && rest[0] == '/'),
    ensures
        cleaned_text(seq!['.', '/'] + rest) == cleaned_text(rest),
        cleaned_text(seq!['.']) == seq!['.'],
        cleaned_text(Seq::empty()) == seq!['.'],
{
    let dot = seq!['.'];
    let none = Seq::<char>::empty();
    assert(!dot.contains('/'));
    lemma_one_element(dot);
    lemma_one_element(none);
    lemma_elements_of_both(dot, rest);
    assert(dot.push('/') + rest =~= seq!['.', '/'] + rest);
    assert(seq![dot].drop_last() =~= Seq::<Seq<char>>::empty());
    assert(seq![none].drop_last() =~= Seq::<Seq<char>>::empty());
    reveal_with_fuel(way, 2);
    lemma_way_goes_on(seq![dot], Seq::empty(), elements(rest), false);
    assert(Seq::<Seq<char>>::empty() + elements(rest) =~= elements(rest));
    assert(way(seq![dot], false) =~= Seq::empty());
    assert(way(seq![none], false) =~= Seq::empty());
}

} // verus!
