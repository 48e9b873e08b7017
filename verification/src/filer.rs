//! Directory-listing computation: decorating entry names, sorting them, and
//! truncating to a window.
//!
//! Enumerating a directory is the caller's job; it hands in one `FsEntry` per
//! immediate child. Everything from there to the list of display strings is
//! computed and verified here: a directory name gets a `/` suffix, an icon
//! prefix is applied when icons are enabled, the lines are sorted ascending,
//! and an optional limit keeps only the first entries of the sorted result.

use vstd::prelude::*;
use vstd::relations::sorted_by;
use vstd::seq_lib::lemma_sorted_unique;
use crate::text::{lex_le, lex_le_fn, lemma_lex_le_total_ordering, lemma_lex_le_transitive,
    lemma_lex_le_connected, lemma_lex_le_reflexive, str_lex_le};

verus! {

/// One immediate child of a directory, as the surrounding process read it
/// from the filesystem. `icon` is the glyph prefix (conventionally one glyph
/// and one space) that decorates the entry when icons are enabled; choosing
/// the glyph is outside this crate's scope, so it arrives here as data.
pub struct FsEntry {
    pub name: String,
    pub is_dir: bool,
    pub icon: String,
}

/// The display string of one entry: the name, a `/` suffix for a directory,
/// and the icon prefix iff icons are enabled.
pub open spec fn decoration(e: FsEntry, enable_icon: bool) -> Seq<char> {
    let base = if e.is_dir {
        e.name@ + seq!['/']
    } else {
        e.name@
    };
    if enable_icon {
        e.icon@ + base
    } else {
        base
    }
}

pub open spec fn decorations(es: Seq<FsEntry>, enable_icon: bool) -> Seq<Seq<char>> {
    es.map_values(|e: FsEntry| decoration(e, enable_icon))
}

/// How many entries a listing keeps: all of them, or the first `k`.
pub open spec fn limit_of(limit: Option<usize>, n: int) -> int {
    match limit {
        Option::None => n,
        Option::Some(k) => if k <= n {
            k as int
        } else {
            n
        },
    }
}

/// The listing a directory with children `es` produces: the decorated names,
/// sorted ascending, truncated to the limit.
pub open spec fn listing(es: Seq<FsEntry>, enable_icon: bool, limit: Option<usize>) -> Seq<
    Seq<char>,
> {
    decorations(es, enable_icon).sort_by(lex_le_fn()).take(
        limit_of(limit, decorations(es, enable_icon).len() as int),
    )
}

fn display_line(e: &FsEntry, enable_icon: bool) -> (r: String)
    ensures
        r@ == decoration(*e, enable_icon),
{
    let mut s = if enable_icon {
        e.icon.clone()
    } else {
        String::new()
    };
    s.append(e.name.as_str());
    if e.is_dir {
        proof {
            reveal_strlit("/");
        }
        s.append("/");
    }
    proof {
        assert(s@ =~= decoration(*e, enable_icon));
    }
    s
}

/// Sorts lines ascending in the `lex_le` order. The result is a permutation
/// of the input.
pub fn sort_lines(input: Vec<String>) -> (r: Vec<String>)
    ensures
        sorted_by(r.deep_view(), lex_le_fn()),
        r.deep_view().to_multiset() == input.deep_view().to_multiset(),
{
    let ghost orig = input.deep_view();
    let mut src = input;
    let mut out: Vec<String> = Vec::new();
    proof {
        broadcast use vstd::seq_lib::group_to_multiset_ensures;

        assert(out.deep_view().to_multiset().add(src.deep_view().to_multiset())
            =~= orig.to_multiset());
    }
    while src.len() > 0
        invariant
            sorted_by(out.deep_view(), lex_le_fn()),
            out.deep_view().to_multiset().add(src.deep_view().to_multiset())
                == orig.to_multiset(),
            forall|i: int, j: int|
                0 <= i < out.deep_view().len() && 0 <= j < src.deep_view().len() ==> lex_le(
                    out.deep_view()[i],
                    src.deep_view()[j],
                ),
        decreases src.len(),
    {
        let mut mi: usize = 0;
        let mut k: usize = 1;
        proof {
            lemma_lex_le_reflexive(src.deep_view()[0]);
        }
        while k < src.len()
            invariant
                src.len() > 0,
                mi < k <= src.len(),
                forall|j: int| 0 <= j < k ==> lex_le(src.deep_view()[mi as int], src.deep_view()[j]),
            decreases src.len() - k,
        {
            if str_lex_le(src[k].as_str(), src[mi].as_str()) {
                proof {
                    assert forall|j: int| 0 <= j < k + 1 implies lex_le(
                        src.deep_view()[k as int],
                        src.deep_view()[j],
                    ) by {
                        if j < k {
                            lemma_lex_le_transitive(
                                src.deep_view()[k as int],
                                src.deep_view()[mi as int],
                                src.deep_view()[j],
                            );
                        } else {
                            lemma_lex_le_connected(
                                src.deep_view()[k as int],
                                src.deep_view()[k as int],
                            );
                        }
                    }
                }
                mi = k;
            } else {
                proof {
                    lemma_lex_le_connected(src.deep_view()[k as int], src.deep_view()[mi as int]);
                }
            }
            k = k + 1;
        }
        let ghost old_src_dv = src.deep_view();
        let ghost old_out_dv = out.deep_view();
        let x = src.remove(mi);
        out.push(x);
        proof {
            broadcast use vstd::seq_lib::group_to_multiset_ensures;

            assert(src.deep_view() =~= old_src_dv.remove(mi as int));
            assert(out.deep_view() =~= old_out_dv.push(old_src_dv[mi as int]));
            assert(out.deep_view().to_multiset().add(src.deep_view().to_multiset())
                =~= orig.to_multiset());
            assert forall|i: int, j: int|
                0 <= i < out.deep_view().len() && 0 <= j < src.deep_view().len() implies lex_le(
                out.deep_view()[i],
                src.deep_view()[j],
            ) by {
                let sj: int = if j < mi {
                    j
                } else {
                    j + 1
                };
                assert(src.deep_view()[j] == old_src_dv[sj]);
                if i < old_out_dv.len() {
                    assert(lex_le(out.deep_view()[i], src.deep_view()[j]));
                } else {
                    assert(out.deep_view()[i] == old_src_dv[mi as int]);
                    assert(lex_le(old_src_dv[mi as int], old_src_dv[sj]));
                }
            }
        }
    }
    proof {
        assert(src.deep_view().to_multiset() =~= Seq::<Seq<char>>::empty().to_multiset());
        broadcast use vstd::seq_lib::group_to_multiset_ensures;

        assert(out.deep_view().to_multiset() =~= orig.to_multiset());
    }
    out
}

/// Computes the listing for the given children: decorated display names,
/// sorted ascending, truncated to `limit` entries when one is given.
pub fn read_dir_entries(entries: Vec<FsEntry>, enable_icon: bool, limit: Option<usize>) -> (r:
    Vec<String>)
    ensures
        r.deep_view() == listing(entries@, enable_icon, limit),
{
    let ghost des = decorations(entries@, enable_icon);
    let mut lines: Vec<String> = Vec::new();
    let mut idx: usize = 0;
    while idx < entries.len()
        invariant
            idx <= entries@.len(),
            des == decorations(entries@, enable_icon),
            lines.deep_view() =~= des.take(idx as int),
        decreases entries@.len() - idx,
    {
        let line = display_line(&entries[idx], enable_icon);
        let ghost old_dv = lines.deep_view();
        lines.push(line);
        proof {
            assert(des[idx as int] == decoration(entries@[idx as int], enable_icon));
            assert(lines.deep_view() =~= old_dv.push(des[idx as int]));
            assert(old_dv.push(des[idx as int]) =~= des.take(idx + 1 as int));
        }
        idx = idx + 1;
    }
    proof {
        assert(lines.deep_view() =~= des);
    }
    let mut sorted = sort_lines(lines);
    proof {
        broadcast use vstd::seq_lib::group_to_multiset_ensures;

        lemma_lex_le_total_ordering();
        des.lemma_sort_by_ensures(lex_le_fn());
        lemma_sorted_unique(sorted.deep_view(), des.sort_by(lex_le_fn()), lex_le_fn());
        assert(sorted.deep_view() == des.sort_by(lex_le_fn()));
        assert(des.sort_by(lex_le_fn()).len() == des.sort_by(lex_le_fn()).to_multiset().len());
        assert(des.len() == des.to_multiset().len());
        assert(sorted.deep_view().len() == des.len());
    }
    let ghost full = des.sort_by(lex_le_fn());
    match limit {
        Option::Some(k) => {
            if k < sorted.len() {
                sorted.truncate(k);
            }
            proof {
                assert(sorted.deep_view() =~= full.take(limit_of(limit, des.len() as int)));
            }
        },
        Option::None => {
            proof {
                assert(sorted.deep_view() =~= full.take(limit_of(limit, des.len() as int)));
            }
        },
    }
    sorted
}

/// A listing is always sorted ascending; without a limit it has exactly one
/// line per child, and its lines are exactly the children's decorated names.
pub proof fn lemma_listing_sorted(es: Seq<FsEntry>, enable_icon: bool, limit: Option<usize>)
    ensures
        sorted_by(listing(es, enable_icon, limit), lex_le_fn()),
        limit is None ==> listing(es, enable_icon, limit).len() == es.len(),
        limit is None ==> listing(es, enable_icon, limit).to_multiset() == decorations(
            es,
            enable_icon,
        ).to_multiset(),
{
    broadcast use vstd::seq_lib::group_to_multiset_ensures;

    let des = decorations(es, enable_icon);
    lemma_lex_le_total_ordering();
    des.lemma_sort_by_ensures(lex_le_fn());
    assert(des.sort_by(lex_le_fn()).len() == des.sort_by(lex_le_fn()).to_multiset().len());
    assert(des.len() == des.to_multiset().len());
    assert(des.sort_by(lex_le_fn()).take(des.sort_by(lex_le_fn()).len() as int) =~= des.sort_by(
        lex_le_fn(),
    ));
}

} // verus!
