//! Text-to-speech input: turning phonemes into the IDs a Piper voice model reads.
use vstd::prelude::*;

use crate::text::chars_of;

verus! {

/// The phoneme that starts a sentence.
pub open spec fn bos() -> Seq<char> {
    "^"@
}

/// The phoneme that ends a sentence.
pub open spec fn eos() -> Seq<char> {
    "$"@
}

/// The padding put after each phoneme.
pub open spec fn pad() -> Seq<char> {
    "_"@
}

/// A voice's table from phonemes to model IDs.
pub struct PhonemeIdMap {
    entries: Vec<(String, Vec<i64>)>,
}

/// The table's entries, keys and IDs by their views.
pub open spec fn entries_view(e: Seq<(String, Vec<i64>)>) -> Seq<(Seq<char>, Seq<i64>)> {
    e.map_values(|p: (String, Vec<i64>)| (p.0@, p.1@))
}

/// The IDs of the first entry for `key`, if any.
pub open spec fn lookup(entries: Seq<(Seq<char>, Seq<i64>)>, key: Seq<char>) -> Option<Seq<i64>>
    decreases entries.len(),
{
    if entries.len() == 0 {
        None
    } else if entries[0].0 == key {
        Some(entries[0].1)
    } else {
        lookup(entries.drop_first(), key)
    }
}

/// The IDs of `key`, or none.
pub open spec fn ids_or_none(entries: Seq<(Seq<char>, Seq<i64>)>, key: Seq<char>) -> Seq<i64> {
    match lookup(entries, key) {
        Some(ids) => ids,
        None => Seq::empty(),
    }
}

/// The IDs of the phonemes `s`: each known phoneme's IDs followed by the
/// padding's; unknown phonemes are skipped.
pub open spec fn phoneme_body(entries: Seq<(Seq<char>, Seq<i64>)>, s: Seq<char>) -> Seq<i64>
    decreases s.len(),
{
    if s.len() == 0 {
        Seq::empty()
    } else {
        phoneme_body(entries, s.drop_last()) + match lookup(entries, seq![s.last()]) {
            Some(ids) => ids + ids_or_none(entries, pad()),
            None => Seq::empty(),
        }
    }
}

/// The model input for a phoneme string: start, phonemes, end (Piper's convention).
pub open spec fn phoneme_ids_spec(entries: Seq<(Seq<char>, Seq<i64>)>, s: Seq<char>) -> Seq<i64> {
    ids_or_none(entries, bos()) + phoneme_body(entries, s) + ids_or_none(entries, eos())
}

/// Whether no phoneme appears twice among the entries.
pub open spec fn distinct_keys(entries: Seq<(Seq<char>, Seq<i64>)>) -> bool {
    forall|i: int, j: int| 0 <= i < j < entries.len() ==> #[trigger] entries[i].0 != #[trigger] entries[j].0
}

impl View for PhonemeIdMap {
    type V = Seq<(Seq<char>, Seq<i64>)>;

    closed spec fn view(&self) -> Seq<(Seq<char>, Seq<i64>)> {
        entries_view(self.entries@)
    }
}

fn lookup_exec<'a>(entries: &'a Vec<(String, Vec<i64>)>, key: &String) -> (r: Option<&'a Vec<i64>>)
    ensures
        r matches Some(v) ==> lookup(entries_view(entries@), key@) == Some(v@),
        r is None ==> lookup(entries_view(entries@), key@) is None,
{
    let mut i: usize = 0;
    assert(entries_view(entries@).skip(0) == entries_view(entries@));
    while i < entries.len()
        invariant
            i <= entries.len(),
            lookup(entries_view(entries@), key@) == lookup(entries_view(entries@).skip(i as int), key@),
        decreases entries.len() - i,
    {
        let ghost rest = entries_view(entries@).skip(i as int);
        assert(rest[0] == (entries@[i as int].0@, entries@[i as int].1@));
        if entries[i].0 == *key {
            return Some(&entries[i].1);
        }
        assert(rest.drop_first() == entries_view(entries@).skip(i + 1));
        i += 1;
    }
    None
}

fn extend_ids(ids: &mut Vec<i64>, more: &Vec<i64>)
    ensures
        final(ids)@ == old(ids)@ + more@,
{
    let mut i: usize = 0;
    while i < more.len()
        invariant
            i <= more.len(),
            ids@ == old(ids)@ + more@.take(i as int),
        decreases more.len() - i,
    {
        ids.push(more[i]);
        assert(more@.take(i + 1) == more@.take(i as int).push(more@[i as int]));
        i += 1;
    }
    assert(more@.take(more@.len() as int) == more@);
}

fn extend_lookup(ids: &mut Vec<i64>, entries: &Vec<(String, Vec<i64>)>, key: &String)
    ensures
        final(ids)@ == old(ids)@ + ids_or_none(entries_view(entries@), key@),
{
    match lookup_exec(entries, key) {
        Some(v) => extend_ids(ids, v),
        None => {
            assert(old(ids)@ + Seq::<i64>::empty() == old(ids)@);
        },
    }
}

fn one_char(c: char) -> (s: String)
    ensures
        s@ == seq![c],
{
    let mut s = String::new();
    crate::text::push_char(&mut s, c);
    s
}

impl PhonemeIdMap {
    /// Each phoneme has one entry.
    pub open spec fn wf(&self) -> bool {
        distinct_keys(self@)
    }

    /// A table with the given entries, one per phoneme (as a map from
    /// phonemes to IDs has them).
    pub fn new(entries: Vec<(String, Vec<i64>)>) -> (m: Self)
        requires
            distinct_keys(entries_view(entries@)),
        ensures
            m@ == entries_view(entries@),
            m.wf(),
    {
        PhonemeIdMap { entries }
    }

    /// Converts an IPA phoneme string to the sequence of phoneme IDs of the model.
    /// Follows Piper's convention: BOS + (phoneme + PAD)* + EOS.
    pub fn phonemes_to_ids(&self, phonemes: &str) -> (ids: Vec<i64>)
        ensures
            ids@ == phoneme_ids_spec(self@, phonemes@),
    {
        let bos_key = "^".to_string();
        let eos_key = "$".to_string();
        let pad_key = "_".to_string();
        let mut ids: Vec<i64> = Vec::new();
        extend_lookup(&mut ids, &self.entries, &bos_key);
        let ghost start = ids@;
        let v = chars_of(phonemes);
        let mut i: usize = 0;
        while i < v.len()
            invariant
                i <= v.len(),
                v@ == phonemes@,
                pad_key@ == pad(),
                ids@ == start + phoneme_body(self@, v@.take(i as int)),
            decreases v.len() - i,
        {
            let key = one_char(v[i]);
            let ghost before = ids@;
            proof {
                let pre = v@.take(i + 1);
                assert(pre.drop_last() == v@.take(i as int));
                assert(pre.last() == v@[i as int]);
            }
            match lookup_exec(&self.entries, &key) {
                Some(p) => {
                    extend_ids(&mut ids, p);
                    extend_lookup(&mut ids, &self.entries, &pad_key);
                    assert(ids@ =~= start + phoneme_body(self@, v@.take(i + 1)));
                },
                None => {
                    assert(phoneme_body(self@, v@.take(i + 1)) =~= phoneme_body(self@, v@.take(i as int)));
                },
            }
            i += 1;
        }
        assert(v@.take(v@.len() as int) == v@);
        extend_lookup(&mut ids, &self.entries, &eos_key);
        ids
    }
}

} // verus!
