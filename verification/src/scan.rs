//! Playlist assembly: classifying scanned files, choosing a cover image,
//! and ordering the queue.
//!
//! The directory walk itself is I/O and happens outside; it hands in the
//! files it found, in walk order. Files are classified by extension,
//! case-insensitively. Among cover candidates the first is kept unless a
//! later one has a better-known name. Queue entries are ordered by the
//! natural ordering of their paths, ties broken by plain lexicographic
//! comparison.

use core::cmp::Ordering;

use vstd::multiset::Multiset;
use vstd::prelude::*;

use crate::audio::{spec_container_from_ext, AudioFile, ContainerKind};
use crate::text::{spec_lower, spec_rfind_char, str_eq, str_eq_lower};

verus! {

/// The cover image kinds recognized by extension.
#[derive(Clone, Copy, Debug, PartialEq, Eq, Structural)]
pub enum CoverKind {
    /// A JPEG image.
    Jpeg,
    /// A PNG image.
    Png,
}

/// The cover kind a lowercased file extension stands for.
pub open spec fn spec_cover_from_ext(ext: Seq<char>) -> Option<CoverKind> {
    if ext == "jpeg"@ || ext == "jpg"@ {
        Some(CoverKind::Jpeg)
    } else if ext == "png"@ {
        Some(CoverKind::Png)
    } else {
        None
    }
}

/// The MIME type of each cover kind.
pub open spec fn spec_cover_mime(kind: CoverKind) -> Seq<char> {
    match kind {
        CoverKind::Jpeg => "image/jpeg"@,
        CoverKind::Png => "image/png"@,
    }
}

impl CoverKind {
    /// The cover kind of a lowercased file extension, if any.
    pub fn from_ext(ext: &str) -> (r: Option<CoverKind>)
        ensures
            r == spec_cover_from_ext(ext@),
    {
        if str_eq(ext, "jpeg") || str_eq(ext, "jpg") {
            Some(CoverKind::Jpeg)
        } else if str_eq(ext, "png") {
            Some(CoverKind::Png)
        } else {
            None
        }
    }

    /// The MIME type the cover is served under.
    pub fn mime_type(self) -> (r: &'static str)
        ensures
            r@ == spec_cover_mime(self),
    {
        match self {
            CoverKind::Jpeg => "image/jpeg",
            CoverKind::Png => "image/png",
        }
    }
}

/// A cover image found beside the music files.
#[derive(Clone, Debug)]
pub struct CoverFile {
    /// Path of the image file.
    pub path: String,
    /// MIME type the image is served under.
    pub mime_type: &'static str,
}

/// Mathematical value of a [`CoverFile`].
pub struct CoverFileView {
    /// Path of the image file.
    pub path: Seq<char>,
    /// MIME type the image is served under.
    pub mime_type: Seq<char>,
}

impl View for CoverFile {
    type V = CoverFileView;

    open spec fn view(&self) -> CoverFileView {
        CoverFileView { path: self.path@, mime_type: self.mime_type@ }
    }
}

impl DeepView for CoverFile {
    type V = CoverFileView;

    open spec fn deep_view(&self) -> CoverFileView {
        self@
    }
}

/// The final component of a path: what follows the last slash.
pub open spec fn spec_file_name(s: Seq<char>) -> Seq<char> {
    match spec_rfind_char(s, '/') {
        Some(i) => s.subrange(i + 1, s.len() as int),
        None => s,
    }
}

/// The extension of a path: what follows the last dot of its final
/// component, unless that dot starts the component.
pub open spec fn spec_extension(s: Seq<char>) -> Option<Seq<char>> {
    let f = spec_file_name(s);
    match spec_rfind_char(f, '.') {
        Some(i) => if i > 0 {
            Some(f.subrange(i + 1, f.len() as int))
        } else {
            None
        },
        None => None,
    }
}

/// The stem of a path: its final component without the extension.
pub open spec fn spec_file_stem(s: Seq<char>) -> Seq<char> {
    let f = spec_file_name(s);
    match spec_rfind_char(f, '.') {
        Some(i) => if i > 0 {
            f.subrange(0, i)
        } else {
            f
        },
        None => f,
    }
}

/// The extension of a path, if it has one.
pub fn path_extension(path: &str) -> (r: Option<&str>)
    ensures
        (match r {
            Some(e) => Some(e@),
            None => None,
        }) == spec_extension(path@),
{
    let n = path.unicode_len();
    let fstart: usize = match crate::text::rfind_char(path, '/') {
        Some(i) => i + 1,
        None => 0,
    };
    let f = path.substring_char(fstart, n);
    proof {
        assert(f@ =~= spec_file_name(path@));
    }
    let flen = f.unicode_len();
    match crate::text::rfind_char(f, '.') {
        Some(i) => {
            if i > 0 {
                Some(f.substring_char(i + 1, flen))
            } else {
                None
            }
        },
        None => None,
    }
}

/// The stem of a path: its final component without the extension.
pub fn path_file_stem(path: &str) -> (r: &str)
    ensures
        r@ == spec_file_stem(path@),
{
    let n = path.unicode_len();
    let fstart: usize = match crate::text::rfind_char(path, '/') {
        Some(i) => i + 1,
        None => 0,
    };
    let f = path.substring_char(fstart, n);
    proof {
        assert(f@ =~= spec_file_name(path@));
    }
    let flen = f.unicode_len();
    match crate::text::rfind_char(f, '.') {
        Some(i) => {
            if i > 0 {
                f.substring_char(0, i)
            } else {
                f
            }
        },
        None => f,
    }
}

/// What a scanned file is, by its extension.
#[derive(Clone, Copy, Debug, PartialEq, Eq, Structural)]
pub enum FileKind {
    /// A cover image candidate.
    Cover(CoverKind),
    /// A music file the receiver can play.
    Audio(ContainerKind),
    /// Anything else; skipped.
    Other,
}

/// What a path's extension classifies it as: a cover image first, then an
/// audio container, case-insensitively; anything else is skipped.
pub open spec fn spec_classify(path: Seq<char>) -> FileKind {
    match spec_extension(path) {
        None => FileKind::Other,
        Some(ext) => {
            let low = spec_lower(ext);
            match spec_cover_from_ext(low) {
                Some(k) => FileKind::Cover(k),
                None => match spec_container_from_ext(low) {
                    Some(k) => FileKind::Audio(k),
                    None => FileKind::Other,
                },
            }
        },
    }
}

/// The cover kind of an extension, compared case-insensitively.
fn cover_kind_lower(ext: &str) -> (r: Option<CoverKind>)
    ensures
        r == spec_cover_from_ext(spec_lower(ext@)),
{
    if str_eq_lower(ext, "jpeg") || str_eq_lower(ext, "jpg") {
        Some(CoverKind::Jpeg)
    } else if str_eq_lower(ext, "png") {
        Some(CoverKind::Png)
    } else {
        None
    }
}

/// The container kind of an extension, compared case-insensitively.
fn container_kind_lower(ext: &str) -> (r: Option<ContainerKind>)
    ensures
        r == spec_container_from_ext(spec_lower(ext@)),
{
    if str_eq_lower(ext, "flac") {
        Some(ContainerKind::Flac)
    } else if str_eq_lower(ext, "ogg") || str_eq_lower(ext, "oga") || str_eq_lower(ext, "opus") {
        Some(ContainerKind::Ogg)
    } else if str_eq_lower(ext, "mka") {
        Some(ContainerKind::Matroska)
    } else if str_eq_lower(ext, "mp3") {
        Some(ContainerKind::Mp3)
    } else if str_eq_lower(ext, "m4a") {
        Some(ContainerKind::Mp4)
    } else {
        None
    }
}

/// Classifies a scanned file by its extension.
pub fn classify_path(path: &str) -> (r: FileKind)
    ensures
        r == spec_classify(path@),
{
    match path_extension(path) {
        None => FileKind::Other,
        Some(ext) => {
            match cover_kind_lower(ext) {
                Some(k) => FileKind::Cover(k),
                None => match container_kind_lower(ext) {
                    Some(k) => FileKind::Audio(k),
                    None => FileKind::Other,
                },
            }
        },
    }
}

/// Whether a directory entry name is hidden: it starts with a dot.
pub fn is_hidden_name(name: &[u8]) -> (r: bool)
    ensures
        r == (name@.len() > 0 && name@[0] == 46),
{
    name.len() > 0 && name[0] == 46
}

/// The preference rank of a cover candidate: the position of its
/// lowercased stem among the well-known cover names, lower preferred;
/// an unknown stem ranks last.
pub open spec fn spec_cover_rank(path: Seq<char>) -> int {
    let stem = spec_lower(spec_file_stem(path));
    if stem == "cover"@ {
        0
    } else if stem == "front"@ {
        1
    } else if stem == "00 - cover"@ {
        2
    } else if stem == "front cover"@ {
        3
    } else {
        usize::MAX as int
    }
}

/// The preference rank of a cover candidate, lower preferred.
pub fn cover_score(path: &str) -> (r: usize)
    ensures
        r as int == spec_cover_rank(path@),
{
    let stem = path_file_stem(path);
    if str_eq_lower(stem, "cover") {
        0
    } else if str_eq_lower(stem, "front") {
        1
    } else if str_eq_lower(stem, "00 - cover") {
        2
    } else if str_eq_lower(stem, "front cover") {
        3
    } else {
        usize::MAX
    }
}

/// Folds the cover candidates in walk order: the first is kept, and a
/// later one takes over only with a strictly better rank.
pub open spec fn spec_select_cover(
    candidates: Seq<CoverFileView>,
    current: Option<CoverFileView>,
) -> Option<CoverFileView>
    decreases candidates.len(),
{
    if candidates.len() == 0 {
        current
    } else {
        let c = candidates[0];
        let next = match current {
            None => Some(c),
            Some(c0) => if spec_cover_rank(c.path) < spec_cover_rank(c0.path) {
                Some(c)
            } else {
                Some(c0)
            },
        };
        spec_select_cover(candidates.drop_first(), next)
    }
}

/// Chooses the cover among the candidates, in walk order.
pub fn select_cover(candidates: Vec<CoverFile>) -> (r: Option<CoverFile>)
    ensures
        (match r {
            Some(c) => Some(c@),
            None => None,
        }) == spec_select_cover(candidates.deep_view(), None),
{
    let ghost all = candidates.deep_view();
    let mut rest = candidates;
    let mut current: Option<CoverFile> = None;
    proof {
        assert(rest.deep_view() =~= all);
    }
    while rest.len() > 0
        invariant
            spec_select_cover(all, None) == spec_select_cover(
                rest.deep_view(),
                match current {
                    Some(c) => Some(c@),
                    None => None,
                },
            ),
        decreases rest.len(),
    {
        let ghost rest0 = rest.deep_view();
        let c = rest.remove(0);
        proof {
            assert(rest.deep_view() =~= rest0.drop_first());
        }
        current = match current {
            None => Some(c),
            Some(c0) => {
                if cover_score(c.path.as_str()) < cover_score(c0.path.as_str()) {
                    Some(c)
                } else {
                    Some(c0)
                }
            },
        };
    }
    proof {
        assert(rest.deep_view() =~= Seq::<CoverFileView>::empty());
    }
    current
}

/// The result of the outside natural-order comparison on two character
/// sequences: a name for that result, not a definition of it.
pub uninterp spec fn natural_order(a: Seq<char>, b: Seq<char>) -> Ordering;

/// Relies on natord::compare: the natural ordering of two strings, a pure
/// function of their characters alone.
#[verifier::external_body]
fn natord_compare(a: &str, b: &str) -> (r: Ordering)
    ensures
        r == natural_order(a@, b@),
{
    natord::compare(a, b)
}

/// Plain lexicographic order on character sequences: whether `a` sorts at
/// or before `b`.
pub open spec fn spec_lex_le(a: Seq<char>, b: Seq<char>) -> bool
    decreases a.len(),
{
    if a.len() == 0 {
        true
    } else if b.len() == 0 {
        false
    } else if a[0] != b[0] {
        (a[0] as int) < (b[0] as int)
    } else {
        spec_lex_le(a.drop_first(), b.drop_first())
    }
}

/// Whether `a` sorts at or before `b` lexicographically.
pub fn lex_le(a: &str, b: &str) -> (r: bool)
    ensures
        r == spec_lex_le(a@, b@),
{
    let alen = a.unicode_len();
    let blen = b.unicode_len();
    let mut i: usize = 0;
    proof {
        assert(a@.skip(0) =~= a@);
        assert(b@.skip(0) =~= b@);
    }
    while i < alen && i < blen
        invariant
            alen == a@.len(),
            blen == b@.len(),
            i <= alen,
            i <= blen,
            spec_lex_le(a@, b@) == spec_lex_le(a@.skip(i as int), b@.skip(i as int)),
        decreases alen - i,
    {
        let ca = a.get_char(i);
        let cb = b.get_char(i);
        proof {
            assert(a@.skip(i as int)[0] == a@[i as int]);
            assert(b@.skip(i as int)[0] == b@[i as int]);
        }
        if ca != cb {
            return ca < cb;
        }
        i += 1;
        proof {
            assert(a@.skip(i - 1).drop_first() =~= a@.skip(i as int));
            assert(b@.skip(i - 1).drop_first() =~= b@.skip(i as int));
        }
    }
    proof {
        if i == alen {
            assert(a@.skip(i as int) =~= Seq::<char>::empty());
        } else {
            assert(b@.skip(i as int) =~= Seq::<char>::empty());
            assert(a@.skip(i as int).len() > 0);
        }
    }
    i == alen
}

/// The queue order: natural ordering of the paths, ties broken by plain
/// lexicographic comparison.
pub open spec fn spec_entry_le(a: Seq<char>, b: Seq<char>) -> bool {
    match natural_order(a, b) {
        Ordering::Less => true,
        Ordering::Equal => spec_lex_le(a, b),
        Ordering::Greater => false,
    }
}

/// Whether one queue entry sorts at or before another.
fn entry_le(a: &AudioFile, b: &AudioFile) -> (r: bool)
    ensures
        r == spec_entry_le(a.path@, b.path@),
{
    match natord_compare(a.path.as_str(), b.path.as_str()) {
        Ordering::Less => true,
        Ordering::Equal => lex_le(a.path.as_str(), b.path.as_str()),
        Ordering::Greater => false,
    }
}

/// Whether the queue order connects any two paths and is transitive. The
/// natural-order comparison lives outside this crate, so the sort's
/// ordering guarantee is stated under this hypothesis.
pub open spec fn entry_order_total() -> bool {
    &&& forall|a: Seq<char>, b: Seq<char>| #[trigger]
        spec_entry_le(a, b) || #[trigger] spec_entry_le(b, a)
    &&& forall|a: Seq<char>, b: Seq<char>, c: Seq<char>|
        #[trigger] spec_entry_le(a, b) && #[trigger] spec_entry_le(b, c) ==> spec_entry_le(a, c)
}

/// Whether a queue is sorted by the queue order.
pub open spec fn spec_sorted(s: Seq<AudioFile>) -> bool {
    forall|i: int, j: int|
        0 <= i < j < s.len() ==> #[trigger] spec_entry_le(s[i].path@, s[j].path@)
}

/// Inserting an element anywhere adds exactly it to the multiset.
proof fn lemma_insert_to_multiset(s: Seq<AudioFile>, j: int, x: AudioFile)
    requires
        0 <= j <= s.len(),
    ensures
        s.insert(j, x).to_multiset() =~= s.to_multiset().insert(x),
{
    broadcast use vstd::seq_lib::group_to_multiset_ensures;

    let t = s.insert(j, x);
    assert(t.remove(j) =~= s);
    assert(t[j] == x);
    assert(t.remove(j).to_multiset() =~= t.to_multiset().remove(x));
    assert(t.to_multiset().contains(x)) by {
        assert(t.contains(x));
    }
    assert forall|a: AudioFile|
        t.to_multiset().count(a) == s.to_multiset().insert(x).count(a) by {
        assert(s.to_multiset().count(a) == t.to_multiset().remove(x).count(a));
    }
    assert(t.to_multiset() =~= s.to_multiset().insert(x));
}

/// The position where a new entry belongs: past every entry it does not
/// sort at or before.
fn insertion_pos(out: &Vec<AudioFile>, x: &AudioFile) -> (r: usize)
    ensures
        r <= out@.len(),
        forall|k: int| 0 <= k < r ==> !spec_entry_le(x.path@, out@[k].path@),
        r < out@.len() ==> spec_entry_le(x.path@, out@[r as int].path@),
{
    let n = out.len();
    let mut i: usize = 0;
    while i < n
        invariant
            n == out@.len(),
            i <= n,
            forall|k: int| 0 <= k < i ==> !spec_entry_le(x.path@, out@[k].path@),
        decreases n - i,
    {
        if entry_le(x, &out[i]) {
            return i;
        }
        i += 1;
    }
    n
}

/// Sorts the queue entries by the queue order.
///
/// The result is a permutation of the input. When the queue order is a
/// total order — which depends on the outside natural-order comparison —
/// the result is sorted by it.
pub fn sort_entries(entries: Vec<AudioFile>) -> (r: Vec<AudioFile>)
    ensures
        r@.to_multiset() == entries@.to_multiset(),
        r@.len() == entries@.len(),
        entry_order_total() ==> spec_sorted(r@),
{
    broadcast use vstd::seq_lib::group_to_multiset_ensures;

    let mut rest = entries;
    let mut out: Vec<AudioFile> = Vec::new();
    proof {
        assert(out@.to_multiset().add(rest@.to_multiset()) =~= rest@.to_multiset());
    }
    while rest.len() > 0
        invariant
            out@.to_multiset().add(rest@.to_multiset()) == entries@.to_multiset(),
            out@.len() + rest@.len() == entries@.len(),
            entry_order_total() ==> spec_sorted(out@),
        decreases rest.len(),
    {
        broadcast use vstd::seq_lib::group_to_multiset_ensures;

        let ghost rest0 = rest@;
        let ghost out0 = out@;
        let x = rest.remove(0);
        let j = insertion_pos(&out, &x);
        let ghost jj = j as int;
        out.insert(j, x);
        proof {
            assert(rest0[0] == x);
            assert(rest0.contains(x));
            assert(rest@ =~= rest0.drop_first());
            assert(rest0.remove(0).to_multiset() =~= rest0.to_multiset().remove(x));
            lemma_insert_to_multiset(out0, jj, x);
            assert forall|a: AudioFile|
                out@.to_multiset().add(rest@.to_multiset()).count(a) == out0.to_multiset().add(
                    rest0.to_multiset(),
                ).count(a) by {
                assert(rest0.to_multiset().count(x) > 0);
            }
            assert(out@.to_multiset().add(rest@.to_multiset()) =~= out0.to_multiset().add(
                rest0.to_multiset(),
            ));
            if entry_order_total() {
                assert forall|p: int, q: int|
                    0 <= p < q < out@.len() implies #[trigger] spec_entry_le(
                    out@[p].path@,
                    out@[q].path@,
                ) by {
                    if q < jj {
                        assert(out@[p] == out0[p] && out@[q] == out0[q]);
                    } else if p < jj && q == jj {
                        assert(out@[p] == out0[p]);
                        assert(!spec_entry_le(x.path@, out0[p].path@));
                        assert(spec_entry_le(out0[p].path@, x.path@));
                    } else if p < jj && q > jj {
                        assert(out@[p] == out0[p] && out@[q] == out0[q - 1]);
                    } else if p == jj {
                        assert(out@[q] == out0[q - 1]);
                        assert(spec_entry_le(x.path@, out0[jj].path@));
                        if q - 1 > jj {
                            assert(spec_entry_le(out0[jj].path@, out0[q - 1].path@));
                        }
                    } else {
                        assert(out@[p] == out0[p - 1] && out@[q] == out0[q - 1]);
                    }
                }
            }
        }
    }
    proof {
        assert(rest@ =~= Seq::<AudioFile>::empty());
        assert(rest@.to_multiset() =~= Multiset::<AudioFile>::empty());
        assert(out@.to_multiset() =~= out@.to_multiset().add(rest@.to_multiset()));
    }
    out
}

/// The assembled queue: the chosen cover and the entries to play,
/// in order.
#[derive(Clone, Debug)]
pub struct Playlist {
    /// The cover image served for tracks without an embedded one.
    pub cover: Option<CoverFile>,
    /// The queue entries, in playback order.
    pub entries: Vec<AudioFile>,
}

/// Why a playlist cannot be played as asked.
#[derive(Clone, Copy, Debug, PartialEq, Eq, Structural)]
pub enum PlaylistError {
    /// The 1-based start index lies past the end of the queue.
    StartIndexOutOfRange,
}

impl Playlist {
    /// The 0-based queue index of the 1-based start position, if the
    /// queue reaches it.
    pub fn start_index(&self, playlist_start: u16) -> (r: Result<u16, PlaylistError>)
        requires
            playlist_start >= 1,
        ensures
            match r {
                Ok(i) => i == playlist_start - 1 && (i as int) < self.entries@.len(),
                Err(e) => e == PlaylistError::StartIndexOutOfRange && playlist_start - 1
                    >= self.entries@.len(),
            },
    {
        let start = playlist_start - 1;
        if (start as usize) < self.entries.len() {
            Ok(start)
        } else {
            Err(PlaylistError::StartIndexOutOfRange)
        }
    }
}

/// Builds the playlist from the files a directory walk found, handed in
/// walk order: the cover candidates folded to the preferred one, and the
/// audio entries sorted by the queue order.
pub fn dir_to_playlist(audio: Vec<AudioFile>, covers: Vec<CoverFile>) -> (r: Playlist)
    ensures
        (match r.cover {
            Some(c) => Some(c@),
            None => None,
        }) == spec_select_cover(covers.deep_view(), None),
        r.entries@.to_multiset() == audio@.to_multiset(),
        r.entries@.len() == audio@.len(),
        entry_order_total() ==> spec_sorted(r.entries@),
{
    let cover = select_cover(covers);
    let entries = sort_entries(audio);
    Playlist { cover, entries }
}

} // verus!
