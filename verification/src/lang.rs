use vstd::prelude::*;

verus! {

/// The translations that ship with the program.
#[derive(Clone, Copy, Debug, PartialEq, Eq, Structural)]
pub enum LangSource {
    /// Japanese.
    Ja,
}

/// The translation for a language tag, if one ships: only "ja" does.
pub fn to_lang_source(tag: &str) -> (r: Option<LangSource>)
    ensures
        r == (if tag@ == seq!['j', 'a'] { Some(LangSource::Ja) } else { None::<LangSource> }),
{
    if tag.unicode_len() == 2 && tag.get_char(0) == 'j' && tag.get_char(1) == 'a' {
        proof {
            assert(tag@ =~= seq!['j', 'a']);
        }
        Some(LangSource::Ja)
    } else {
        None
    }
}

/// The part of a language tag before its first hyphen (the whole tag when
/// it has none).
pub open spec fn primary_language(tag: Seq<char>) -> Seq<char>
    decreases tag.len(),
{
    if tag.len() == 0 || tag[0] == '-' {
        Seq::empty()
    } else {
        seq![tag[0]] + primary_language(tag.drop_first())
    }
}

/// Each tag, followed by its primary language.
pub open spec fn language_candidates(tags: Seq<Seq<char>>) -> Seq<Seq<char>>
    decreases tags.len(),
{
    if tags.len() == 0 {
        Seq::empty()
    } else {
        language_candidates(tags.drop_last()) + seq![tags.last(), primary_language(tags.last())]
    }
}

/// `primary_language` of the first `n` characters.
proof fn lemma_primary_prefix(tag: Seq<char>, n: int)
    requires
        0 <= n < tag.len(),
        forall|i: int| 0 <= i < n ==> tag[i] != '-',
    ensures
        primary_language(tag) == tag.take(n) + primary_language(tag.skip(n)),
    decreases n,
{
    if n > 0 {
        lemma_primary_prefix(tag.drop_first(), n - 1);
        assert(tag.drop_first().take(n - 1) =~= tag.take(n).drop_first());
        assert(tag.drop_first().skip(n - 1) =~= tag.skip(n));
        assert(seq![tag[0]] + tag.take(n).drop_first() =~= tag.take(n));
    } else {
        assert(tag.take(0) =~= Seq::<char>::empty());
        assert(tag.skip(0) =~= tag);
    }
}

/// The primary language of a tag.
pub fn primary_language_of(tag: &str) -> (r: String)
    ensures
        r@ == primary_language(tag@),
{
    let n = tag.unicode_len();
    let mut i: usize = 0;
    let mut r = String::new();
    while i < n
        invariant
            n == tag@.len(),
            i <= n,
            r@ == tag@.take(i as int),
            forall|j: int| 0 <= j < i ==> tag@[j] != '-',
        decreases n - i,
    {
        let c = tag.get_char(i);
        if c == '-' {
            proof {
                lemma_primary_prefix(tag@, i as int);
                assert(tag@.skip(i as int)[0] == '-');
            }
            return r;
        }
        crate::text::push_char(&mut r, c);
        assert(tag@.take(i + 1) =~= tag@.take(i as int).push(c));
        i = i + 1;
    }
    proof {
        assert(tag@.take(n as int) =~= tag@);
        if n > 0 {
            lemma_primary_prefix(tag@, n - 1);
            let last = tag@.skip(n - 1);
            assert(last.drop_first() =~= Seq::<char>::empty());
            assert(last[0] == tag@[n - 1]);
            assert(tag@[n - 1] != '-');
            assert(primary_language(last.drop_first()) == Seq::<char>::empty());
            assert(primary_language(last) =~= seq![tag@[n - 1]]);
            assert(tag@.take(n - 1) + seq![tag@[n - 1]] =~= tag@);
        }
    }
    r
}

/// The tags to look a translation up by, in order: each tag, then its
/// primary language.
pub fn language_candidates_of(tags: &Vec<String>) -> (r: Vec<String>)
    ensures
        r@.map_values(|s: String| s@) == language_candidates(tags@.map_values(|s: String| s@)),
{
    let mut r: Vec<String> = Vec::new();
    let mut i: usize = 0;
    while i < tags.len()
        invariant
            i <= tags@.len(),
            r@.map_values(|s: String| s@) == language_candidates(tags@.take(i as int).map_values(|s: String| s@)),
        decreases tags.len() - i,
    {
        let tag = tags[i].clone();
        let primary = primary_language_of(tag.as_str());
        proof {
            let t = tags@.take(i + 1).map_values(|s: String| s@);
            assert(t.drop_last() =~= tags@.take(i as int).map_values(|s: String| s@));
            assert(t.last() == tag@);
        }
        r.push(tag);
        r.push(primary);
        proof {
            let t = tags@.take(i + 1).map_values(|s: String| s@);
            assert(r@.map_values(|s: String| s@) =~= language_candidates(t.drop_last()) + seq![t.last(), primary_language(t.last())]);
        }
        i = i + 1;
    }
    assert(tags@.take(tags@.len() as int) =~= tags@);
    r
}

} // verus!
