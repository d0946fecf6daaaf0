//! Reading a whole mount table: every record, or the physical ones only.
//!
//! Both operations are pure functions of the table text they are given;
//! the caller supplies that text (on Linux, the content of `/proc/mounts`).
//! Parsing is all-or-nothing: the first malformed line fails the whole
//! read, and no partial list is ever returned.

use vstd::prelude::*;
use crate::partition::{line_record, line_well_formed, parse_line, Error, Partition, PartitionModel};
use crate::text::{split_into_lines, split_lines, views_of};

verus! {

/// The lines of the table that are parsed: the segments between line
/// feeds, with empty segments dropped (so a trailing newline, or a blank
/// line, never reaches the record parser).
pub open spec fn table_lines(text: Seq<char>) -> Seq<Seq<char>> {
    nonempty_of(split_lines(text))
}

/// Drops the empty segments of a line sequence.
pub open spec fn nonempty_of(lines: Seq<Seq<char>>) -> Seq<Seq<char>> {
    lines.filter(|l: Seq<char>| l.len() > 0)
}

/// The first line of `lines` with fewer than four fields, if any: the
/// line whose failure a whole-table read reports.
pub open spec fn first_malformed(lines: Seq<Seq<char>>) -> Option<Seq<char>>
    decreases lines.len(),
{
    if lines.len() == 0 {
        None
    } else if !line_well_formed(lines[0]) {
        Some(lines[0])
    } else {
        first_malformed(lines.drop_first())
    }
}

/// The records of a sequence of well-formed lines, in line order.
pub open spec fn table_records(lines: Seq<Seq<char>>) -> Seq<PartitionModel> {
    lines.map_values(|l: Seq<char>| line_record(l))
}

/// The views of a sequence of partition records.
pub open spec fn part_views(ps: Seq<Partition>) -> Seq<PartitionModel> {
    ps.map_values(|p: Partition| p@)
}

/// The records whose filesystem type classifies as physical, in order.
pub open spec fn physical_of(rs: Seq<PartitionModel>) -> Seq<PartitionModel> {
    rs.filter(|r: PartitionModel| r.filesystem.is_physical())
}

/// The physical listing is a subsequence of the full listing that holds
/// exactly the physical records: it is never longer, every record in it
/// classifies as physical, and every physical record of the full listing
/// appears in it. Its order is the full listing's order, since it is the
/// filter of that sequence.
pub proof fn lemma_physical_subsequence(rs: Seq<PartitionModel>)
    ensures
        physical_of(rs).len() <= rs.len(),
        forall|i: int| 0 <= i < physical_of(rs).len() ==> (#[trigger] physical_of(
            rs,
        )[i]).filesystem.is_physical(),
        forall|i: int|
            0 <= i < rs.len() && (#[trigger] rs[i]).filesystem.is_physical() ==> physical_of(
                rs,
            ).contains(rs[i]),
{
    broadcast use Seq::lemma_filter_len, Seq::lemma_filter_pred, Seq::lemma_filter_contains;

}

/// Scanning lines left to right and stopping at the first malformed one
/// finds exactly `first_malformed`.
proof fn lemma_first_malformed_append(a: Seq<Seq<char>>, b: Seq<Seq<char>>)
    ensures
        first_malformed(a + b) == if first_malformed(a) is Some {
            first_malformed(a)
        } else {
            first_malformed(b)
        },
    decreases a.len(),
{
    if a.len() == 0 {
        assert(a + b =~= b);
    } else {
        assert((a + b)[0] == a[0]);
        assert((a + b).drop_first() =~= a.drop_first() + b);
        lemma_first_malformed_append(a.drop_first(), b);
    }
}

/// A singleton line sequence has its one line as first malformed line
/// exactly when that line is malformed.
proof fn lemma_first_malformed_singleton(l: Seq<char>)
    ensures
        line_well_formed(l) ==> first_malformed(seq![l]) is None,
        !line_well_formed(l) ==> first_malformed(seq![l]) == Some(l),
{
    assert(first_malformed(Seq::<Seq<char>>::empty()) is None);
    assert(seq![l].drop_first() =~= Seq::<Seq<char>>::empty());
}

/// Parses a whole mount table.
///
/// On success the result holds one record per non-empty line of the
/// table, in table order, duplicates preserved; empty text gives the
/// empty list. If any non-empty line has fewer than four fields, the
/// whole read fails with `Error::MalformedRecord` carrying the first
/// such line, and no partial list is returned.
pub fn partitions(table: &str) -> (r: Result<Vec<Partition>, Error>)
    ensures
        first_malformed(table_lines(table@)) is None ==> (r matches Ok(v) && part_views(v@)
            == table_records(table_lines(table@))),
        first_malformed(table_lines(table@)) matches Some(l) ==> (r matches Err(e) && (e matches
        Error::MalformedRecord(s) && s@ == l)),
{
    let lines = split_into_lines(table);
    let ghost lviews = views_of(lines@);
    let mut out: Vec<Partition> = Vec::new();
    let mut k: usize = 0;
    proof {
        reveal(Seq::filter);
        assert(lviews.take(0) =~= Seq::<Seq<char>>::empty());
        assert(part_views(out@) =~= table_records(nonempty_of(lviews.take(0))));
    }
    while k < lines.len()
        invariant
            0 <= k <= lines.len(),
            lviews == views_of(lines@),
            lviews == split_lines(table@),
            lviews.len() == lines.len(),
            first_malformed(nonempty_of(lviews.take(k as int))) is None,
            part_views(out@) == table_records(nonempty_of(lviews.take(k as int))),
        decreases lines.len() - k,
    {
        broadcast use Seq::lemma_filter_push;

        let line = &lines[k];
        let ghost lv = lviews[k as int];
        proof {
            assert(lv == lines@[k as int]@);
            assert(lviews.take(k + 1) =~= lviews.take(k as int).push(lv));
        }
        if !line.as_str().is_empty() {
            let parsed = parse_line(line.as_str());
            match parsed {
                Ok(p) => {
                    let ghost before = out@;
                    out.push(p);
                    proof {
                        let pre = nonempty_of(lviews.take(k as int));
                        assert(nonempty_of(lviews.take(k + 1)) == pre.push(lv));
                        assert(pre.push(lv) =~= pre + seq![lv]);
                        lemma_first_malformed_append(pre, seq![lv]);
                        lemma_first_malformed_singleton(lv);
                        assert(part_views(out@) =~= part_views(before).push(p@));
                        assert(table_records(pre.push(lv)) =~= table_records(pre).push(
                        line_record(lv)));
                    }
                },
                Err(e) => {
                    proof {
                        let pre = nonempty_of(lviews.take(k as int));
                        assert(lviews =~= lviews.take(k as int) + lviews.skip(k as int));
                        assert(lviews.skip(k as int) =~= seq![lv] + lviews.skip(k + 1));
                        Seq::filter_distributes_over_add(
                            lviews.take(k as int),
                            lviews.skip(k as int),
                            |l: Seq<char>| l.len() > 0,
                        );
                        Seq::filter_distributes_over_add(
                            seq![lv],
                            lviews.skip(k + 1),
                            |l: Seq<char>| l.len() > 0,
                        );
                        assert(seq![lv] =~= Seq::<Seq<char>>::empty().push(lv));
                        reveal(Seq::filter);
                        assert(nonempty_of(seq![lv]) =~= seq![lv]);
                        lemma_first_malformed_append(
                            pre,
                            seq![lv] + nonempty_of(lviews.skip(k + 1)),
                        );
                        lemma_first_malformed_append(seq![lv], nonempty_of(lviews.skip(k + 1)));
                        lemma_first_malformed_singleton(lv);
                        assert(first_malformed(table_lines(table@)) == Some(lv));
                    }
                    return Err(e);
                },
            }
        }
        k += 1;
    }
    proof {
        assert(lviews.take(lviews.len() as int) =~= lviews);
    }
    Ok(out)
}

/// Parses a whole mount table and keeps only the records whose
/// filesystem type classifies as physical.
///
/// On success the result is exactly the physical records of the full
/// parse, their relative order preserved (an order-preserving subsequence
/// of what `partitions` returns). Failure is exactly as for `partitions`:
/// the first malformed line fails the whole read.
pub fn partitions_physical(table: &str) -> (r: Result<Vec<Partition>, Error>)
    ensures
        first_malformed(table_lines(table@)) is None ==> (r matches Ok(v) && part_views(v@)
            == physical_of(table_records(table_lines(table@)))),
        first_malformed(table_lines(table@)) matches Some(l) ==> (r matches Err(e) && (e matches
        Error::MalformedRecord(s) && s@ == l)),
{
    let all = match partitions(table) {
        Ok(v) => v,
        Err(e) => {
            return Err(e);
        },
    };
    let mut out: Vec<Partition> = Vec::new();
    let mut k: usize = 0;
    proof {
        reveal(Seq::filter);
        assert(part_views(all@).take(0) =~= Seq::<PartitionModel>::empty());
        assert(part_views(out@) =~= physical_of(part_views(all@).take(0)));
    }
    while k < all.len()
        invariant
            0 <= k <= all.len(),
            part_views(all@) == table_records(table_lines(table@)),
            part_views(all@).len() == all.len(),
            part_views(out@) == physical_of(part_views(all@).take(k as int)),
        decreases all.len() - k,
    {
        broadcast use Seq::lemma_filter_push;

        let p = &all[k];
        let ghost pv = part_views(all@)[k as int];
        proof {
            assert(pv == all@[k as int]@);
            assert(part_views(all@).take(k + 1) =~= part_views(all@).take(k as int).push(pv));
        }
        if p.filesystem().is_physical() {
            let ghost before = out@;
            out.push(p.clone());
            proof {
                assert(part_views(out@) =~= part_views(before).push(pv));
            }
        }
        k += 1;
    }
    proof {
        assert(part_views(all@).take(all@.len() as int) =~= part_views(all@));
    }
    Ok(out)
}

} // verus!
