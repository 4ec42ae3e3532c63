//! Splitting the bytes of a fetched object into frames.

use vstd::prelude::*;

verus! {

/// How the bytes of an object are cut into frames.
#[derive(Clone, Copy, Debug, PartialEq, Eq, Structural)]
pub enum FramingConfig {
    /// The whole object is one frame.
    Bytes,
    /// Every line feed ends a frame.
    NewlineDelimited,
    /// Every occurrence of the given byte ends a frame.
    CharacterDelimited { delimiter: u8 },
}

/// The line feed.
pub const NEWLINE: u8 = 10u8;

impl FramingConfig {
    /// The byte that ends a frame, if the framing has one.
    pub open spec fn delimiter(self) -> Option<u8> {
        match self {
            FramingConfig::Bytes => None,
            FramingConfig::NewlineDelimited => Some(NEWLINE),
            FramingConfig::CharacterDelimited { delimiter } => Some(delimiter),
        }
    }

    /// The byte that ends a frame, if the framing has one.
    pub fn delimiter_byte(&self) -> (d: Option<u8>)
        ensures
            d == self.delimiter(),
    {
        match self {
            FramingConfig::Bytes => None,
            FramingConfig::NewlineDelimited => Some(NEWLINE),
            FramingConfig::CharacterDelimited { delimiter } => Some(*delimiter),
        }
    }
}

/// The first position at or after `from` that holds `d`, or the length of `s` if there is none.
pub open spec fn next_delimiter(s: Seq<u8>, d: u8, from: int) -> int
    decreases s.len() - from,
{
    if from >= s.len() {
        s.len() as int
    } else if s[from] == d {
        from
    } else {
        next_delimiter(s, d, from + 1)
    }
}

/// Where the frame that starts at `from` ends: at the next delimiter, or at the end of the content.
pub open spec fn frame_end(content: Seq<u8>, framing: FramingConfig, from: int) -> int {
    match framing.delimiter() {
        Some(d) => next_delimiter(content, d, from),
        None => content.len() as int,
    }
}

/// The frames of the content from position `from` on, in byte order. A frame runs up to
/// the next delimiter, which belongs to no frame; bytes after the last delimiter form a
/// last frame; two delimiters in a row enclose an empty frame.
pub open spec fn frames_from(content: Seq<u8>, framing: FramingConfig, from: int) -> Seq<Seq<u8>>
    decreases content.len() + 1 - from,
    via frames_from_decreases
{
    if from < 0 || from >= content.len() {
        Seq::empty()
    } else {
        let end = frame_end(content, framing, from);
        seq![content.subrange(from, end)] + frames_from(content, framing, end + 1)
    }
}

#[via_fn]
proof fn frames_from_decreases(content: Seq<u8>, framing: FramingConfig, from: int) {
    if 0 <= from < content.len() {
        lemma_frame_end_bounds(content, framing, from);
    }
}

/// All the frames of the content.
pub open spec fn frames_of(content: Seq<u8>, framing: FramingConfig) -> Seq<Seq<u8>> {
    frames_from(content, framing, 0)
}

/// The byte strings that a vector of byte vectors holds.
pub open spec fn byte_views(v: Seq<Vec<u8>>) -> Seq<Seq<u8>> {
    Seq::new(v.len(), |i: int| v[i]@)
}

/// The next delimiter lies between `from` and the end, and no delimiter comes before it.
pub proof fn lemma_next_delimiter(s: Seq<u8>, d: u8, from: int)
    requires
        0 <= from <= s.len(),
    ensures
        from <= next_delimiter(s, d, from) <= s.len(),
        next_delimiter(s, d, from) < s.len() ==> s[next_delimiter(s, d, from)] == d,
        forall|k: int| from <= k < next_delimiter(s, d, from) ==> s[k] != d,
    decreases s.len() - from,
{
    if from < s.len() && s[from] != d {
        lemma_next_delimiter(s, d, from + 1);
    }
}

/// A frame ends between its start and the end of the content.
pub proof fn lemma_frame_end_bounds(content: Seq<u8>, framing: FramingConfig, from: int)
    requires
        0 <= from <= content.len(),
    ensures
        from <= frame_end(content, framing, from) <= content.len(),
{
    match framing.delimiter() {
        Some(d) => lemma_next_delimiter(content, d, from),
        None => {},
    }
}

/// No frame of a delimited content holds the delimiter.
pub proof fn lemma_frames_hold_no_delimiter(content: Seq<u8>, framing: FramingConfig, from: int)
    requires
        0 <= from,
        framing.delimiter() is Some,
    ensures
        forall|i: int, k: int|
            0 <= i < frames_from(content, framing, from).len() && 0 <= k < frames_from(
                content,
                framing,
                from,
            )[i].len() ==> #[trigger] frames_from(content, framing, from)[i][k]
                != framing.delimiter()->0,
    decreases content.len() + 1 - from,
{
    if from < content.len() {
        let d = framing.delimiter()->0;
        let end = frame_end(content, framing, from);
        lemma_next_delimiter(content, d, from);
        lemma_frames_hold_no_delimiter(content, framing, end + 1);
        let rest = frames_from(content, framing, end + 1);
        let all = frames_from(content, framing, from);
        assert forall|i: int, k: int| 0 <= i < all.len() && 0 <= k < all[i].len() implies #[trigger] all[i][k]
            != d by {
            if i == 0 {
                assert(all[0] == content.subrange(from, end));
                assert(all[0][k] == content[from + k]);
            } else {
                assert(all[i] == rest[i - 1]);
            }
        }
    }
}

/// The frames put together again, each followed by the delimiter.
pub open spec fn joined(frames: Seq<Seq<u8>>, d: u8) -> Seq<u8>
    decreases frames.len(),
{
    if frames.len() == 0 {
        Seq::empty()
    } else {
        frames[0] + seq![d] + joined(frames.skip(1), d)
    }
}

/// Framing by a delimiter loses nothing and keeps the byte order: the frames from
/// `from` on, each followed by the delimiter, are the content from `from` on, with one
/// delimiter added at the end where the content does not end in one.
pub proof fn lemma_frames_rebuild_content(content: Seq<u8>, framing: FramingConfig, from: int)
    requires
        0 <= from <= content.len(),
        framing.delimiter() is Some,
    ensures
        joined(frames_from(content, framing, from), framing.delimiter()->0) == if from
            == content.len() {
            Seq::<u8>::empty()
        } else if content.last() == framing.delimiter()->0 {
            content.skip(from)
        } else {
            content.skip(from).push(framing.delimiter()->0)
        },
    decreases content.len() - from,
{
    let d = framing.delimiter()->0;
    let frames = frames_from(content, framing, from);
    if from < content.len() {
        let end = frame_end(content, framing, from);
        lemma_next_delimiter(content, d, from);
        let rest = frames_from(content, framing, end + 1);
        assert(frames.skip(1) =~= rest);
        assert(frames[0] == content.subrange(from, end));
        if end == content.len() {
            assert(rest.len() == 0);
            assert(content[content.len() - 1] != d);
            assert(frames[0] =~= content.skip(from));
            assert(joined(frames.skip(1), d) =~= Seq::<u8>::empty());
            assert(joined(frames, d) =~= content.skip(from).push(d));
        } else {
            lemma_frames_rebuild_content(content, framing, end + 1);
            assert(content.subrange(from, end) + seq![d] =~= content.subrange(from, end + 1));
            if end + 1 == content.len() {
                assert(content.subrange(from, end + 1) =~= content.skip(from));
                assert(joined(frames, d) =~= content.skip(from));
            } else if content.last() == d {
                assert(content.subrange(from, end + 1) + content.skip(end + 1) =~= content.skip(
                    from,
                ));
            } else {
                assert(content.subrange(from, end + 1) + content.skip(end + 1).push(d)
                    =~= content.skip(from).push(d));
            }
        }
    }
}

/// Without a delimiter the content, if there is any, is its own single frame.
pub proof fn lemma_bytes_framing_keeps_content(content: Seq<u8>)
    ensures
        frames_of(content, FramingConfig::Bytes) == if content.len() == 0 {
            Seq::<Seq<u8>>::empty()
        } else {
            seq![content]
        },
{
    if content.len() > 0 {
        assert(content.subrange(0, content.len() as int) =~= content);
        assert(frames_from(content, FramingConfig::Bytes, content.len() as int + 1).len() == 0);
        assert(frames_of(content, FramingConfig::Bytes) =~= seq![content]);
    }
}

/// A copy of the bytes of `content` between `start` and `end`.
pub(crate) fn copy_range(content: &Vec<u8>, start: usize, end: usize) -> (out: Vec<u8>)
    requires
        start <= end <= content.len(),
    ensures
        out@ == content@.subrange(start as int, end as int),
{
    let mut out: Vec<u8> = Vec::new();
    let mut i: usize = start;
    while i < end
        invariant
            start <= i <= end <= content.len(),
            out@ == content@.subrange(start as int, i as int),
        decreases end - i,
    {
        out.push(content[i]);
        i = i + 1;
        assert(out@ =~= content@.subrange(start as int, i as int));
    }
    out
}

/// Finds where the frame that starts at `from` ends.
fn find_frame_end(content: &Vec<u8>, framing: FramingConfig, from: usize) -> (end: usize)
    requires
        from <= content.len(),
    ensures
        end == frame_end(content@, framing, from as int),
        from <= end <= content.len(),
{
    match framing.delimiter_byte() {
        None => content.len(),
        Some(d) => {
            let mut i: usize = from;
            while i < content.len() && content[i] != d
                invariant
                    from <= i <= content.len(),
                    next_delimiter(content@, d, from as int) == next_delimiter(content@, d, i as int),
                decreases content.len() - i,
            {
                i = i + 1;
            }
            i
        },
    }
}

/// A cursor that hands out the frames of an object one by one, in byte order. It can be
/// set back to the beginning of the object only, never to a place in the middle.
pub struct Framer {
    framing: FramingConfig,
    pos: usize,
}

impl Framer {
    /// The framing that the cursor cuts by.
    pub closed spec fn framing(self) -> FramingConfig {
        self.framing
    }

    /// The position in the content at which the next frame starts.
    pub closed spec fn position(self) -> int {
        self.pos as int
    }

    /// The frames that the cursor has not handed out yet.
    pub open spec fn remaining(self, content: Seq<u8>) -> Seq<Seq<u8>> {
        frames_from(content, self.framing(), self.position())
    }

    /// A cursor at the beginning of an object.
    pub fn new(framing: FramingConfig) -> (framer: Self)
        ensures
            framer.framing() == framing,
            framer.position() == 0,
    {
        Framer { framing, pos: 0 }
    }

    /// Sets the cursor back to the beginning of the object.
    pub fn restart(&mut self)
        ensures
            final(self).framing() == old(self).framing(),
            final(self).position() == 0,
    {
        self.pos = 0;
    }

    /// Hands out the next frame of `content`, or `None` when all frames were handed out.
    pub fn next_frame(&mut self, content: &Vec<u8>) -> (frame: Option<Vec<u8>>)
        ensures
            final(self).framing() == old(self).framing(),
            match frame {
                Some(f) => {
                    &&& old(self).remaining(content@).len() > 0
                    &&& f@ == old(self).remaining(content@)[0]
                    &&& final(self).remaining(content@) == old(self).remaining(content@).skip(1)
                },
                None => {
                    &&& old(self).remaining(content@).len() == 0
                    &&& *final(self) == *old(self)
                },
            },
    {
        if self.pos >= content.len() {
            return None;
        }
        let start = self.pos;
        let end = find_frame_end(content, self.framing, start);
        let frame = copy_range(content, start, end);
        proof {
            let rest = frames_from(content@, self.framing, end + 1);
            assert(old(self).remaining(content@) == seq![content@.subrange(start as int, end as int)]
                + rest);
            assert(old(self).remaining(content@).skip(1) =~= rest);
            if end == content.len() {
                assert(frames_from(content@, self.framing, end as int) =~= rest);
            }
        }
        self.pos = if end < content.len() {
            end + 1
        } else {
            end
        };
        Some(frame)
    }
}

/// Cuts the whole content into its frames.
pub fn split_frames(content: &Vec<u8>, framing: FramingConfig) -> (frames: Vec<Vec<u8>>)
    ensures
        byte_views(frames@) == frames_of(content@, framing),
{
    let mut framer = Framer::new(framing);
    let mut frames: Vec<Vec<u8>> = Vec::new();
    assert(byte_views(frames@) + framer.remaining(content@) =~= frames_of(content@, framing));
    loop
        invariant
            framer.framing() == framing,
            byte_views(frames@) + framer.remaining(content@) == frames_of(content@, framing),
        ensures
            byte_views(frames@) == frames_of(content@, framing),
        decreases framer.remaining(content@).len(),
    {
        let ghost before = framer.remaining(content@);
        let ghost held = frames@;
        match framer.next_frame(content) {
            None => {
                assert(byte_views(frames@) + before =~= byte_views(frames@));
                break ;
            },
            Some(f) => {
                frames.push(f);
                assert(byte_views(frames@) =~= byte_views(held).push(before[0]));
                assert(byte_views(held).push(before[0]) + before.skip(1) =~= byte_views(held)
                    + before);
            },
        }
    }
    frames
}

} // verus!
