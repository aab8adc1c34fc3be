//! Supplementary context: cutting a line range or a section out of a
//! document, and naming the chunk that results.

use vstd::prelude::*;
use vstd::string::*;
use crate::task::{ContextRef, ContextRefView};
use crate::text::{
    contains_chars,
    decimal,
    from_chars,
    has_substring,
    lines,
    render_decimal,
    replace_char,
    replaced,
    rows,
    split_lines,
    to_chars,
};

verus! {

/// Why a chunk was cut by line numbers.
pub const RATIONALE_LINES: &'static str = "explicit line range";

/// The lines of `ls` whose number, counted from one, lies between `start` and
/// `end` inclusive, each followed by a line feed.
pub open spec fn numbered_lines(ls: Seq<Seq<char>>, start: int, end: int) -> Seq<char>
    decreases ls.len(),
{
    if ls.len() == 0 {
        Seq::empty()
    } else {
        let before = numbered_lines(ls.drop_last(), start, end);
        if start <= ls.len() <= end {
            before + ls.last() + seq!['\n']
        } else {
            before
        }
    }
}

/// Whether some line of `ls` holds `marker`.
pub open spec fn marker_seen(ls: Seq<Seq<char>>, marker: Seq<char>) -> bool {
    exists|i: int| 0 <= i < ls.len() && has_substring(#[trigger] ls[i], marker)
}

/// The lines of `ls` from the first one that holds `marker` to the end, each
/// followed by a line feed.
pub open spec fn section_lines(ls: Seq<Seq<char>>, marker: Seq<char>) -> Seq<char>
    decreases ls.len(),
{
    if ls.len() == 0 {
        Seq::empty()
    } else {
        let before = section_lines(ls.drop_last(), marker);
        if marker_seen(ls, marker) {
            before + ls.last() + seq!['\n']
        } else {
            before
        }
    }
}

/// Cuts the lines numbered `start` to `end` out of `contents`.
pub fn extract_lines(contents: &str, start: usize, end: usize) -> (out: String)
    ensures
        out@ == numbered_lines(lines(contents@), start as int, end as int),
{
    let chars = to_chars(contents);
    let all = split_lines(chars.as_slice());
    let ghost ls = rows(all@);
    let mut out = String::new();
    let mut i: usize = 0;
    assert(ls.take(0) =~= Seq::<Seq<char>>::empty());
    while i < all.len()
        invariant
            i <= all.len(),
            ls == rows(all@),
            out@ == numbered_lines(ls.take(i as int), start as int, end as int),
        decreases all.len() - i,
    {
        assert(ls.take(i + 1).drop_last() =~= ls.take(i as int));
        assert(ls.take(i + 1).last() == all@[i as int]@);
        let line_no = i + 1;
        if line_no >= start && line_no <= end {
            let ghost before = out@;
            out.append(from_chars(&all[i]).as_str());
            out.push('\n');
            assert(out@ =~= before + all@[i as int]@ + seq!['\n']);
        }
        i += 1;
    }
    assert(ls.take(i as int) =~= ls);
    out
}

/// Cuts out of `contents` everything from the first line that holds `marker`.
pub fn extract_section(contents: &str, marker: &str) -> (out: String)
    ensures
        out@ == section_lines(lines(contents@), marker@),
{
    let chars = to_chars(contents);
    let needle = to_chars(marker);
    let all = split_lines(chars.as_slice());
    let ghost ls = rows(all@);
    let mut out = String::new();
    let mut capture = false;
    let mut i: usize = 0;
    assert(ls.take(0) =~= Seq::<Seq<char>>::empty());
    while i < all.len()
        invariant
            i <= all.len(),
            ls == rows(all@),
            needle@ == marker@,
            capture == marker_seen(ls.take(i as int), marker@),
            out@ == section_lines(ls.take(i as int), marker@),
        decreases all.len() - i,
    {
        let ghost seen = ls.take(i as int);
        let ghost next = ls.take(i + 1);
        assert(next.drop_last() =~= seen);
        assert(next.last() == all@[i as int]@);
        let here = contains_chars(all[i].as_slice(), needle.as_slice());
        proof {
            if capture {
                let k = choose|k: int| 0 <= k < seen.len() && has_substring(#[trigger] seen[k], marker@);
                assert(next[k] == seen[k]);
            }
            if here {
                assert(has_substring(next[i as int], marker@));
            }
            if marker_seen(next, marker@) {
                let k = choose|k: int| 0 <= k < next.len() && has_substring(#[trigger] next[k], marker@);
                if k < i {
                    assert(seen[k] == next[k]);
                }
            }
        }
        if here {
            capture = true;
        }
        if capture {
            let ghost before = out@;
            out.append(from_chars(&all[i]).as_str());
            out.push('\n');
            assert(out@ =~= before + all@[i as int]@ + seq!['\n']);
        }
        i += 1;
    }
    assert(ls.take(i as int) =~= ls);
    out
}

/// Name of the chunk cut from `filename` by the lines `start` to `end`.
pub open spec fn lines_chunk_name(filename: Seq<char>, start: usize, end: usize) -> Seq<char> {
    filename + "__lines_"@ + decimal(start as nat) + "_"@ + decimal(end as nat) + ".txt"@
}

/// Name of the chunk cut from `filename` at the section `section`: spaces in
/// the marker become underscores.
pub open spec fn section_chunk_name(filename: Seq<char>, section: Seq<char>) -> Seq<char> {
    filename + "__section_"@ + replaced(section, ' ', '_') + ".txt"@
}

/// Why a chunk was cut at the section `section`.
pub open spec fn section_rationale(section: Seq<char>) -> Seq<char> {
    "explicit section: "@ + section
}

/// A row of the record of what was selected as context, and why.
#[derive(Debug)]
pub struct SelectionEntry {
    /// Path of the document the chunk was cut from.
    pub source: String,
    /// Name of the chunk.
    pub chunk: String,
    /// Why the chunk was cut as it was.
    pub rationale: String,
}

/// A chunk of context: its text, and its row in the selection record.
#[derive(Debug)]
pub struct ContextChunk {
    pub content: String,
    pub entry: SelectionEntry,
}

/// `ContextChunk` with its texts as character sequences.
pub struct ContextChunkView {
    pub content: Seq<char>,
    pub source: Seq<char>,
    pub chunk: Seq<char>,
    pub rationale: Seq<char>,
}

impl View for ContextChunk {
    type V = ContextChunkView;

    open spec fn view(&self) -> ContextChunkView {
        ContextChunkView {
            content: self.content@,
            source: self.entry.source@,
            chunk: self.entry.chunk@,
            rationale: self.entry.rationale@,
        }
    }
}

/// The views of a run of chunks, in the same order.
pub open spec fn chunk_views(chunks: Seq<ContextChunk>) -> Seq<ContextChunkView> {
    chunks.map_values(|c: ContextChunk| c@)
}

/// The chunk that a line range cuts from a document.
pub open spec fn lines_chunk(
    ctx: ContextRefView,
    filename: Seq<char>,
    contents: Seq<char>,
    start: usize,
    end: usize,
) -> ContextChunkView {
    ContextChunkView {
        content: numbered_lines(lines(contents), start as int, end as int),
        source: ctx.path,
        chunk: lines_chunk_name(filename, start, end),
        rationale: RATIONALE_LINES@,
    }
}

/// The chunk that a section marker cuts from a document.
pub open spec fn section_chunk(
    ctx: ContextRefView,
    filename: Seq<char>,
    contents: Seq<char>,
    section: Seq<char>,
) -> ContextChunkView {
    ContextChunkView {
        content: section_lines(lines(contents), section),
        source: ctx.path,
        chunk: section_chunk_name(filename, section),
        rationale: section_rationale(section),
    }
}

/// The chunks that a context reference cuts from its document: one for the
/// line range if it gives one, then one for the section if it gives one.
pub open spec fn resolved_chunks(
    ctx: ContextRefView,
    filename: Seq<char>,
    contents: Seq<char>,
) -> Seq<ContextChunkView> {
    let by_lines = match ctx.lines {
        Some((start, end)) => seq![lines_chunk(ctx, filename, contents, start, end)],
        None => Seq::empty(),
    };
    let by_section = match ctx.section {
        Some(section) => seq![section_chunk(ctx, filename, contents, section)],
        None => Seq::empty(),
    };
    by_lines + by_section
}

/// Cuts the chunks that `ctx` asks for out of its document, whose file name is
/// `filename` and whose text is `contents`.
pub fn resolve_context(ctx: &ContextRef, filename: &str, contents: &str) -> (out: Vec<
    ContextChunk,
>)
    ensures
        chunk_views(out@) == resolved_chunks(ctx@, filename@, contents@),
{
    let mut out: Vec<ContextChunk> = Vec::new();
    if let Some((start, end)) = ctx.lines {
        let name = String::from_str(filename).concat("__lines_").concat(
            render_decimal(start as u64).as_str(),
        ).concat("_").concat(render_decimal(end as u64).as_str()).concat(".txt");
        out.push(
            ContextChunk {
                content: extract_lines(contents, start, end),
                entry: SelectionEntry {
                    source: ctx.path.clone(),
                    chunk: name,
                    rationale: String::from_str(RATIONALE_LINES),
                },
            },
        );
    }
    if let Some(section) = &ctx.section {
        let marker = to_chars(section.as_str());
        let flat = replace_char(marker.as_slice(), ' ', '_');
        let name = String::from_str(filename).concat("__section_").concat(
            from_chars(&flat).as_str(),
        ).concat(".txt");
        out.push(
            ContextChunk {
                content: extract_section(contents, section.as_str()),
                entry: SelectionEntry {
                    source: ctx.path.clone(),
                    chunk: name,
                    rationale: String::from_str("explicit section: ").concat(section.as_str()),
                },
            },
        );
    }
    assert(chunk_views(out@) =~= resolved_chunks(ctx@, filename@, contents@));
    out
}

} // verus!
