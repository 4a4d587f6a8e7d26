//! Cutting lyrics into chunks of words, one chunk for each image of a
//! music video.

use crate::playlist::opt_view;
use crate::text::{char_is_whitespace, is_whitespace_char, join_words, split_whitespace, tokens, views};
use vstd::prelude::*;
use vstd::string::*;

verus! {

/// Why lyrics could not be cut.
#[derive(Debug, PartialEq, Eq, Structural, Clone, Copy)]
pub enum LyricsError {
    /// The song has no lyrics.
    NoLyrics,
    /// A chunk has to hold at least one word.
    EmptyChunk,
}

impl LyricsError {
    /// The message of the failure.
    pub fn message(&self) -> (r: String)
        ensures
            r@ == match *self {
                LyricsError::NoLyrics => "No Lyrics to parse"@,
                LyricsError::EmptyChunk => "Chunk size must not be zero"@,
            },
    {
        match self {
            LyricsError::NoLyrics => String::from_str("No Lyrics to parse"),
            LyricsError::EmptyChunk => String::from_str("Chunk size must not be zero"),
        }
    }
}

/// `words` cut into runs of `size` words, the last run holding what is
/// left, each run joined by single spaces.
pub open spec fn chunks(words: Seq<Seq<char>>, size: nat) -> Seq<Seq<char>>
    decreases words.len(),
{
    if words.len() == 0 || size == 0 {
        Seq::empty()
    } else if words.len() <= size {
        seq![join_words(words)]
    } else {
        seq![join_words(words.take(size as int))] + chunks(words.skip(size as int), size)
    }
}

/// What `get_lyric_chunks` returns for lyrics of value `lyric`.
pub open spec fn lyric_chunks(lyric: Option<Seq<char>>, size: nat) -> Result<
    Seq<Seq<char>>,
    LyricsError,
> {
    match lyric {
        None => Err(LyricsError::NoLyrics),
        Some(text) => if size == 0 {
            Err(LyricsError::EmptyChunk)
        } else {
            Ok(chunks(tokens(text), size))
        },
    }
}

/// The view of a result that holds strings.
pub open spec fn chunks_view(r: Result<Vec<String>, LyricsError>) -> Result<
    Seq<Seq<char>>,
    LyricsError,
> {
    match r {
        Ok(v) => Ok(views(v@)),
        Err(e) => Err(e),
    }
}

/// Cuts the lyrics into chunks of `chunksize` words. Words are what
/// whitespace separates; the words of a chunk are joined by one space
/// each. Lyrics that are absent are an error, and so is a chunk size of
/// zero; empty lyrics give no chunk.
pub fn get_lyric_chunks(lyric: &Option<String>, chunksize: usize) -> (r: Result<
    Vec<String>,
    LyricsError,
>)
    ensures
        chunks_view(r) == lyric_chunks(opt_view(*lyric), chunksize as nat),
{
    let text = match lyric {
        None => {
            return Err(LyricsError::NoLyrics);
        },
        Some(text) => text,
    };
    if chunksize == 0 {
        return Err(LyricsError::EmptyChunk);
    }
    let words = split_whitespace(text.as_str());
    let ghost all = views(words@);
    let mut out: Vec<String> = Vec::new();
    let mut i: usize = 0;
    assert(all.skip(0) =~= all);
    assert(views(out@) =~= Seq::<Seq<char>>::empty());
    while i < words.len()
        invariant
            0 <= i <= words.len(),
            chunksize > 0,
            all == views(words@),
            views(out@) + chunks(all.skip(i as int), chunksize as nat) == chunks(
                all,
                chunksize as nat,
            ),
        decreases words.len() - i,
    {
        let rest = words.len() - i;
        let take = if rest < chunksize {
            rest
        } else {
            chunksize
        };
        let ghost run = all.subrange(i as int, i + take);
        let mut chunk = words[i].clone();
        let mut j: usize = 1;
        assert(run.take(1) =~= seq![all[i as int]]);
        while j < take
            invariant
                1 <= j <= take,
                i + take <= words.len(),
                all == views(words@),
                run == all.subrange(i as int, i + take),
                chunk@ == join_words(run.take(j as int)),
            decreases take - j,
        {
            chunk.append(" ");
            chunk.append(words[i + j].as_str());
            proof {
                let next = run.take(j + 1);
                assert(next.drop_last() =~= run.take(j as int));
                assert(next.last() == words[i + j]@);
            }
            j = j + 1;
        }
        proof {
            assert(run.take(take as int) =~= run);
            let tail = all.skip(i as int);
            if rest <= chunksize {
                assert(tail =~= run);
                assert(all.skip(i + take) =~= Seq::<Seq<char>>::empty());
                assert(chunks(all.skip(i + take), chunksize as nat) =~= Seq::<Seq<char>>::empty());
            } else {
                assert(tail.take(chunksize as int) =~= run);
                assert(tail.skip(chunksize as int) =~= all.skip(i + take));
            }
            assert(chunks(tail, chunksize as nat) =~= seq![chunk@] + chunks(
                all.skip(i + take),
                chunksize as nat,
            ));
        }
        let ghost before = out@;
        out.push(chunk);
        assert(views(out@) =~= views(before).push(chunk@));
        assert(views(out@) + chunks(all.skip(i + take), chunksize as nat) =~= views(before)
            + chunks(all.skip(i as int), chunksize as nat));
        i = i + take;
    }
    assert(all.skip(words.len() as int) =~= Seq::<Seq<char>>::empty());
    assert(views(out@) + Seq::<Seq<char>>::empty() =~= views(out@));
    Ok(out)
}


/// `line` without the carriage return at its end, if it has one.
pub open spec fn strip_cr(line: Seq<char>) -> Seq<char> {
    if line.len() > 0 && line.last() == '\r' {
        line.drop_last()
    } else {
        line
    }
}

/// State of a left-to-right scan for line ends: the lines already closed,
/// and the characters of the line that is still open.
pub open spec fn scan_lines(s: Seq<char>) -> (Seq<Seq<char>>, Seq<char>)
    decreases s.len(),
{
    if s.len() == 0 {
        (Seq::empty(), Seq::empty())
    } else {
        let (done, cur) = scan_lines(s.drop_last());
        if s.last() == '\n' {
            (done.push(strip_cr(cur)), Seq::empty())
        } else {
            (done, cur.push(s.last()))
        }
    }
}

/// The lines of `s`. A line ends at a line feed, or at a carriage return
/// followed by a line feed; neither belongs to the line. What follows the
/// last line feed is a line only if it is not empty.
pub open spec fn lines(s: Seq<char>) -> Seq<Seq<char>> {
    let (done, cur) = scan_lines(s);
    if cur.len() > 0 {
        done.push(cur)
    } else {
        done
    }
}

/// The first character of `line` that is no whitespace.
pub open spec fn first_mark(line: Seq<char>) -> Option<char>
    decreases line.len(),
{
    if line.len() == 0 {
        None
    } else if is_whitespace_char(line[0]) {
        first_mark(line.drop_first())
    } else {
        Some(line[0])
    }
}

/// Whether `line` names a section of a song, as `[Chorus]` does: its
/// first character after any whitespace is an opening bracket.
pub open spec fn is_section(line: Seq<char>) -> bool {
    first_mark(line) == Some('[')
}

/// The lines of `all` that name no section, in order.
pub open spec fn sung_lines(all: Seq<Seq<char>>) -> Seq<Seq<char>>
    decreases all.len(),
{
    if all.len() == 0 {
        Seq::empty()
    } else if is_section(all.last()) {
        sung_lines(all.drop_last())
    } else {
        sung_lines(all.drop_last()).push(all.last())
    }
}

/// The lines of `all`, each two separated by one line feed.
pub open spec fn join_lines(all: Seq<Seq<char>>) -> Seq<char>
    decreases all.len(),
{
    if all.len() == 0 {
        Seq::empty()
    } else if all.len() == 1 {
        all[0]
    } else {
        join_lines(all.drop_last()) + "\n"@ + all.last()
    }
}

/// The lyrics without the lines that name a section.
pub open spec fn sung_text(lyric: Seq<char>) -> Seq<char> {
    join_lines(sung_lines(lines(lyric)))
}

/// Whether `line` names a section.
pub fn is_section_line(line: &str) -> (r: bool)
    ensures
        r == is_section(line@),
{
    let n = line.unicode_len();
    let mut i: usize = 0;
    assert(line@.skip(0) =~= line@);
    for c in it: line.chars()
        invariant
            it.seq() == line@,
            n == line@.len(),
            i == it.index(),
            i <= n,
            first_mark(line@) == first_mark(line@.skip(i as int)),
    {
        let ghost rest = line@.skip(i as int);
        assert(rest[0] == c);
        assert(rest.drop_first() =~= line@.skip(i + 1));
        if !char_is_whitespace(c) {
            return c == '[';
        }
        i = i + 1;
    }
    assert(line@.skip(line@.len() as int).len() == 0);
    false
}


fn keep_line(out: &mut String, any_kept: &mut bool, line: &str, Ghost(done): Ghost<Seq<Seq<char>>>)
    requires
        old(out)@ == join_lines(sung_lines(done)),
        *old(any_kept) == (sung_lines(done).len() > 0),
    ensures
        final(out)@ == join_lines(sung_lines(done.push(line@))),
        *final(any_kept) == (sung_lines(done.push(line@)).len() > 0),
{
    let ghost closed = done.push(line@);
    assert(closed.drop_last() =~= done);
    if !is_section_line(line) {
        let ghost kept = sung_lines(done);
        assert(kept.push(line@).drop_last() =~= kept);
        if *any_kept {
            out.append("\n");
        }
        out.append(line);
        *any_kept = true;
    }
}

/// Takes out of the lyrics the lines that name a section, and joins what
/// is left by line feeds.
pub fn strip_sections(lyric: &str) -> (r: String)
    ensures
        r@ == sung_text(lyric@),
{
    let n = lyric.unicode_len();
    let mut out = String::new();
    let mut any_kept = false;
    let mut start: usize = 0;
    let mut last_cr = false;
    let mut i: usize = 0;
    let ghost mut done: Seq<Seq<char>> = Seq::empty();
    assert(lyric@.take(0) =~= Seq::<char>::empty());
    assert(lyric@.subrange(0, 0) =~= Seq::<char>::empty());
    for c in it: lyric.chars()
        invariant
            it.seq() == lyric@,
            n == lyric@.len(),
            i == it.index(),
            start <= i <= n,
            scan_lines(lyric@.take(i as int)) == (done, lyric@.subrange(start as int, i as int)),
            out@ == join_lines(sung_lines(done)),
            any_kept == (sung_lines(done).len() > 0),
            last_cr == (i > start && lyric@[i - 1] == '\r'),
    {
        let ghost next = lyric@.take(i + 1);
        assert(next.drop_last() =~= lyric@.take(i as int));
        assert(next.last() == c);
        let ghost cur = lyric@.subrange(start as int, i as int);
        if c == '\n' {
            let end = if last_cr {
                i - 1
            } else {
                i
            };
            let line = lyric.substring_char(start, end);
            assert(line@ =~= strip_cr(cur));
            keep_line(&mut out, &mut any_kept, line, Ghost(done));
            proof {
                done = done.push(line@);
            }
            start = i + 1;
            last_cr = false;
            assert(lyric@.subrange(start as int, start as int) =~= Seq::<char>::empty());
        } else {
            last_cr = c == '\r';
            assert(lyric@.subrange(start as int, i + 1) =~= cur.push(c));
        }
        i = i + 1;
    }
    assert(lyric@.take(n as int) =~= lyric@);
    if start < n {
        let line = lyric.substring_char(start, n);
        keep_line(&mut out, &mut any_kept, line, Ghost(done));
    }
    out
}

/// What `music_video_chunks` returns for lyrics of value `lyric`.
pub open spec fn sung_chunks(lyric: Option<Seq<char>>, size: nat) -> Result<
    Seq<Seq<char>>,
    LyricsError,
> {
    match lyric {
        None => Err(LyricsError::NoLyrics),
        Some(text) => lyric_chunks(Some(sung_text(text)), size),
    }
}

/// Cuts what is sung of the lyrics into chunks of `chunksize` words: the
/// lines that name a section are left out first.
pub fn music_video_chunks(lyric: &Option<String>, chunksize: usize) -> (r: Result<
    Vec<String>,
    LyricsError,
>)
    ensures
        chunks_view(r) == sung_chunks(opt_view(*lyric), chunksize as nat),
{
    let sung = match lyric {
        Some(text) => Some(strip_sections(text.as_str())),
        None => None,
    };
    get_lyric_chunks(&sung, chunksize)
}

} // verus!
