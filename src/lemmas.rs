use vstd::prelude::*;

use crate::types::{
    base_text, braced, declarator, ends_in_pointer, enumerators_text, fields_text,
    pointer_text, qualifiers_text, spaced, type_text, BaseType, TypeModifier, Type,
};

verus! {

/// Whether `part` stands in `s` as a contiguous run starting at index `i`.
pub open spec fn occurs_at(s: Seq<char>, part: Seq<char>, i: int) -> bool {
    &&& 0 <= i
    &&& i + part.len() <= s.len()
    &&& s.subrange(i, i + part.len()) == part
}

/// Whether `part` stands in `s` as a contiguous run.
pub open spec fn contains(s: Seq<char>, part: Seq<char>) -> bool {
    exists|i: int| occurs_at(s, part, i)
}

/// Rendering is a function of the type and the name: two renderings of one
/// type declaring one name give the same text.
pub proof fn lemma_render_stable(t: Type, name: Seq<char>, first: Seq<char>, second: Seq<char>)
    requires
        first == type_text(t, name),
        second == type_text(t, name),
    ensures
        first == second,
{
}

proof fn lemma_occurs_trans(a: Seq<char>, b: Seq<char>, c: Seq<char>, i: int, j: int)
    requires
        occurs_at(a, b, i),
        occurs_at(b, c, j),
    ensures
        occurs_at(a, c, i + j),
{
    assert(a.subrange(i + j, i + j + c.len()) =~= b.subrange(j, j + c.len()));
}

proof fn lemma_spaced_keeps_right(a: Seq<char>, b: Seq<char>)
    ensures
        contains(spaced(a, b), b),
{
    let s = spaced(a, b);
    if a.len() == 0 || b.len() == 0 {
        assert(s.subrange(0, b.len() as int) =~= b);
        assert(occurs_at(s, b, 0));
    } else {
        let i: int = a.len() as int + 1;
        assert(s.subrange(i, i + b.len()) =~= b);
        assert(occurs_at(s, b, i));
    }
}

/// Adding one more modifier keeps the declarator built so far as a
/// contiguous run of the new one.
proof fn lemma_step_keeps_fragment(mods: Seq<TypeModifier>, name: Seq<char>, k: int)
    requires
        0 <= k < mods.len(),
    ensures
        contains(declarator(mods.subrange(0, k + 1), name), declarator(mods.subrange(0, k), name)),
{
    let prefix = mods.subrange(0, k + 1);
    assert(prefix.subrange(0, k) =~= mods.subrange(0, k));
    let inner = declarator(mods.subrange(0, k), name);
    let wrap = ends_in_pointer(mods.subrange(0, k)) && inner.len() > 0;
    let outer = declarator(prefix, name);
    match mods[k] {
        TypeModifier::Pointer(q) => {
            lemma_spaced_keeps_right(pointer_text(q), inner);
        },
        _ => {
            let off: int = if wrap { 1 } else { 0 };
            assert(outer.subrange(off, off + inner.len()) =~= inner);
            assert(occurs_at(outer, inner, off));
        },
    }
}

/// The declarator of the first `k` modifiers stands, unbroken, in the
/// declarator of the first `j`, for any `j` from `k` on.
proof fn lemma_fragment_persists(mods: Seq<TypeModifier>, name: Seq<char>, k: int, j: int)
    requires
        0 <= k <= j <= mods.len(),
    ensures
        contains(declarator(mods.subrange(0, j), name), declarator(mods.subrange(0, k), name)),
    decreases j - k,
{
    let part = declarator(mods.subrange(0, k), name);
    if j == k {
        assert(occurs_at(part, part, 0)) by {
            assert(part.subrange(0, part.len() as int) =~= part);
        }
    } else {
        lemma_fragment_persists(mods, name, k, j - 1);
        let mid = declarator(mods.subrange(0, j - 1), name);
        let i1 = choose|i: int| occurs_at(mid, part, i);
        lemma_step_keeps_fragment(mods, name, j - 1);
        let whole = declarator(mods.subrange(0, j), name);
        let i2 = choose|i: int| occurs_at(whole, mid, i);
        lemma_occurs_trans(whole, mid, part, i2, i1);
    }
}

/// Grouping parentheses come exactly where a pointer is followed outward by
/// an array or a function. There the declarator built so far, which starts
/// with the pointer's `*`, is wrapped whole in `(` and `)`, and that group
/// stands unbroken in the rendered text. After two pointers in a row the
/// new one is put before the fragment with a space, and after an array or
/// function followed by another the fragment is kept as it is at the front:
/// no parentheses between them.
pub proof fn lemma_grouping(t: Type, name: Seq<char>, k: int)
    requires
        1 <= k < t.modifiers@.len(),
    ensures
        ({
            let mods = t.modifiers@;
            let fragment = declarator(mods.subrange(0, k), name);
            let next = declarator(mods.subrange(0, k + 1), name);
            &&& mods[k - 1] is Pointer && !(mods[k] is Pointer) ==> {
                &&& fragment.len() > 0 && fragment[0] == '*'
                &&& next.subrange(0, fragment.len() + 2 as int) == seq!['('] + fragment + seq![')']
                &&& contains(type_text(t, name), seq!['('] + fragment + seq![')'])
            }
            &&& mods[k - 1] is Pointer ==> (mods[k] matches TypeModifier::Pointer(q) ==> next
                == pointer_text(q) + seq![' '] + fragment)
            &&& !(mods[k - 1] is Pointer) && !(mods[k] is Pointer) ==> next.subrange(0, fragment.len() as int)
                == fragment
        }),
{
    let mods = t.modifiers@;
    let before = mods.subrange(0, k);
    let fragment = declarator(before, name);
    let prefix = mods.subrange(0, k + 1);
    let next = declarator(prefix, name);
    assert(prefix.subrange(0, k) =~= before);
    let last = before.subrange(0, k - 1);
    assert(before.subrange(0, k - 1) =~= last);
    assert(before[k - 1] == mods[k - 1]);
    if mods[k - 1] is Pointer {
        assert(ends_in_pointer(before));
        if let TypeModifier::Pointer(q) = mods[k - 1] {
            assert(pointer_text(q)[0] == '*');
            assert(fragment == spaced(pointer_text(q), declarator(last, name)));
            assert(fragment[0] == '*');
        }
        if !(mods[k] is Pointer) {
            assert(next.subrange(0, fragment.len() + 2 as int) =~= seq!['('] + fragment + seq![')']);
            let group = seq!['('] + fragment + seq![')'];
            assert(occurs_at(next, group, 0));
            lemma_fragment_persists(mods, name, k + 1, mods.len() as int);
            assert(mods.subrange(0, mods.len() as int) =~= mods);
            let d = declarator(mods, name);
            let i1 = choose|i: int| occurs_at(d, next, i);
            lemma_occurs_trans(d, next, group, i1, 0);
            let head = spaced(qualifiers_text(t.qualifiers), base_text(t.base));
            lemma_spaced_keeps_right(head, d);
            let i2 = choose|i: int| occurs_at(type_text(t, name), d, i);
            lemma_occurs_trans(type_text(t, name), d, group, i2, i1);
        }
    } else {
        assert(!ends_in_pointer(before));
        if !(mods[k] is Pointer) {
            assert(next.subrange(0, fragment.len() as int) =~= fragment);
        }
    }
}

/// A tag with a body that holds nothing renders that body as ` { }`, and the
/// same tag with no body renders as its keyword and name alone, so the two
/// never render alike.
pub proof fn lemma_empty_body(defined: BaseType, referenced: BaseType)
    requires
        (defined matches BaseType::Struct { fields: Some(fs), .. } && fs@.len() == 0)
            || (defined matches BaseType::Enum { enumerators: Some(es), .. } && es@.len() == 0),
        referenced == match defined {
            BaseType::Struct { name, struct_type, .. } => BaseType::Struct {
                name,
                struct_type,
                fields: None,
            },
            BaseType::Enum { name, .. } => BaseType::Enum { name, enumerators: None },
            _ => defined,
        },
    ensures
        base_text(defined) == base_text(referenced) + seq![' ', '{', ' ', '}'],
        base_text(defined) != base_text(referenced),
{
    match defined {
        BaseType::Struct { fields: Some(fs), .. } => {
            assert(fields_text(fs@) =~= Seq::<char>::empty());
            assert(braced(fields_text(fs@)) =~= seq![' ', '{', ' ', '}']);
        },
        BaseType::Enum { enumerators: Some(es), .. } => {
            assert(enumerators_text(es@) =~= Seq::<char>::empty());
            assert(braced(enumerators_text(es@)) =~= seq![' ', '{', ' ', '}']);
        },
        _ => {},
    }
    assert(base_text(defined).len() == base_text(referenced).len() + 4);
}

} // verus!
