use vstd::prelude::*;
use id3::TagLike;

verus! {

/// An ID3 tag of the `id3` crate, carried through the library as an opaque value.
#[verifier::external_type_specification]
#[verifier::external_body]
pub struct ExTag(id3::Tag);

/// The revision of the ID3v2 format a tag is written in.
#[verifier::external_type_specification]
pub struct ExVersion(id3::Version);

/// One frame of a tag as the library sees it: its identifier and, for a text frame, its text.
pub type FrameView = (Seq<char>, Option<Seq<char>>);

/// The frames of a tag, in the order the tag keeps them.
pub uninterp spec fn tag_frames(t: id3::Tag) -> Seq<(Seq<char>, Option<Seq<char>>)>;

/// Identifier of the artist frame.
pub open spec fn artist_id() -> Seq<char> {
    seq!['T', 'P', 'E', '1']
}

/// Identifier of the title frame.
pub open spec fn title_id() -> Seq<char> {
    seq!['T', 'I', 'T', '2']
}

/// Identifier of the album frame.
pub open spec fn album_id() -> Seq<char> {
    seq!['T', 'A', 'L', 'B']
}

/// Whether `id` is one of the three identifiers this library rewrites.
pub open spec fn is_rewritten_id(id: Seq<char>) -> bool {
    id == artist_id() || id == title_id() || id == album_id()
}

/// Whether a frame has identifier `id`.
pub open spec fn id_is(id: Seq<char>) -> spec_fn(FrameView) -> bool {
    |f: FrameView| f.0 == id
}

/// The frames of `fs` whose identifier is `id`, in order.
pub open spec fn frames_with(fs: Seq<FrameView>, id: Seq<char>) -> Seq<FrameView> {
    fs.filter(id_is(id))
}

/// The text that a reader of the tag gets for `id`: that of the first frame with this
/// identifier, when that frame is a text frame.
pub open spec fn text_of(fs: Seq<FrameView>, id: Seq<char>) -> Option<Seq<char>> {
    let w = frames_with(fs, id);
    if w.len() == 0 {
        None
    } else {
        w[0].1
    }
}

/// `k` is the position of the first frame with identifier `id`.
pub open spec fn is_first_with(fs: Seq<FrameView>, id: Seq<char>, k: int) -> bool {
    &&& 0 <= k < fs.len()
    &&& fs[k].0 == id
    &&& forall|j: int| 0 <= j < k ==> fs[j].0 != id
}

/// Some frame of `fs` has identifier `id`.
pub open spec fn holds_id(fs: Seq<FrameView>, id: Seq<char>) -> bool {
    exists|i: int| 0 <= i < fs.len() && fs[i].0 == id
}

/// Setting the text frame `id` to `text` turns the frames `old` into `new`: the new text
/// frame goes last, and at most one earlier frame with that identifier leaves. When the
/// first frame with that identifier is a text frame, exactly that one leaves; when there is
/// none, nothing leaves.
pub open spec fn text_set(
    old: Seq<FrameView>,
    new: Seq<FrameView>,
    id: Seq<char>,
    text: Seq<char>,
) -> bool {
    &&& new.len() > 0
    &&& new.last() == (id, Some(text))
    &&& (new.drop_last() == old || exists|k: int|
        0 <= k < old.len() && old[k].0 == id && new.drop_last() == old.remove(k))
    &&& (!holds_id(old, id) ==> new.drop_last() == old)
    &&& forall|k: int|
        is_first_with(old, id, k) && (#[trigger] old[k]).1.is_some() ==> new.drop_last()
            == old.remove(k)
}

/// A tag read back from `fs` has at most one frame with identifier `id`, and that frame,
/// if any, is a text frame.
pub open spec fn single_text_frame(fs: Seq<FrameView>, id: Seq<char>) -> bool {
    &&& frames_with(fs, id).len() <= 1
    &&& forall|i: int| 0 <= i < frames_with(fs, id).len() ==> (#[trigger] frames_with(fs, id)[i]).1.is_some()
}

/// The frames `new` are the frames `old` with the artist, the title and the album set, in
/// this order.
pub open spec fn retagged(
    old: Seq<FrameView>,
    new: Seq<FrameView>,
    artist: Seq<char>,
    title: Seq<char>,
    album: Seq<char>,
) -> bool {
    exists|m1: Seq<FrameView>, m2: Seq<FrameView>|
        #[trigger] text_set(old, m1, artist_id(), artist) && #[trigger] text_set(
            m1,
            m2,
            title_id(),
            title,
        ) && text_set(m2, new, album_id(), album)
}

proof fn lemma_ids_distinct()
    ensures
        artist_id() != title_id(),
        artist_id() != album_id(),
        title_id() != album_id(),
{
    assert(artist_id()[1] != title_id()[1]);
    assert(artist_id()[1] != album_id()[1]);
    assert(title_id()[1] != album_id()[1]);
}

proof fn lemma_frames_with_push(s: Seq<FrameView>, e: FrameView, id: Seq<char>)
    ensures
        frames_with(s.push(e), id) == (if e.0 == id {
            frames_with(s, id).push(e)
        } else {
            frames_with(s, id)
        }),
{
    assert(s.push(e).drop_last() =~= s);
    reveal_with_fuel(Seq::filter, 1);
}

proof fn lemma_frames_with_split(s: Seq<FrameView>, k: int, id: Seq<char>)
    requires
        0 <= k < s.len(),
    ensures
        frames_with(s, id) == (if s[k].0 == id {
            frames_with(s.remove(k), id).insert(frames_with(s.subrange(0, k), id).len() as int, s[k])
        } else {
            frames_with(s.remove(k), id)
        }),
{
    let a = s.subrange(0, k);
    let b = s.subrange(k + 1, s.len() as int);
    let pred = id_is(id);
    assert(s =~= a + (seq![s[k]] + b));
    assert(s.remove(k) =~= a + b);
    Seq::filter_distributes_over_add(a, seq![s[k]] + b, pred);
    Seq::filter_distributes_over_add(seq![s[k]], b, pred);
    Seq::filter_distributes_over_add(a, b, pred);
    assert(seq![s[k]].drop_last() =~= Seq::<FrameView>::empty());
    reveal_with_fuel(Seq::filter, 2);
    if s[k].0 == id {
        assert(seq![s[k]].filter(pred) =~= seq![s[k]]);
        assert(a.filter(pred) + (seq![s[k]] + b.filter(pred)) =~= (a.filter(pred) + b.filter(pred)).insert(a.filter(pred).len() as int, s[k]));
    } else {
        assert(seq![s[k]].filter(pred) =~= Seq::<FrameView>::empty());
        assert(a.filter(pred) + (Seq::<FrameView>::empty() + b.filter(pred)) =~= a.filter(pred) + b.filter(pred));
    }
}

proof fn lemma_first_exists(fs: Seq<FrameView>, id: Seq<char>, i: int)
    requires
        0 <= i < fs.len(),
        fs[i].0 == id,
    ensures
        exists|k: int| is_first_with(fs, id, k),
    decreases i,
{
    if exists|j: int| 0 <= j < i && fs[j].0 == id {
        let j = choose|j: int| 0 <= j < i && fs[j].0 == id;
        lemma_first_exists(fs, id, j);
    } else {
        assert(is_first_with(fs, id, i));
    }
}

/// Setting one text frame leaves the frames of every other identifier as they were.
pub proof fn lemma_text_set_keeps_others(
    old: Seq<FrameView>,
    new: Seq<FrameView>,
    id: Seq<char>,
    text: Seq<char>,
    other: Seq<char>,
)
    requires
        text_set(old, new, id, text),
        other != id,
    ensures
        frames_with(new, other) == frames_with(old, other),
{
    assert(new =~= new.drop_last().push(new.last()));
    lemma_frames_with_push(new.drop_last(), new.last(), other);
    if new.drop_last() != old {
        let k = choose|k: int| 0 <= k < old.len() && old[k].0 == id && new.drop_last() == old.remove(k);
        lemma_frames_with_split(old, k, other);
    }
}

/// Setting a text frame whose identifier the tag holds at most once, as text, leaves exactly
/// one frame with that identifier: the new one.
pub proof fn lemma_text_set_single(
    old: Seq<FrameView>,
    new: Seq<FrameView>,
    id: Seq<char>,
    text: Seq<char>,
)
    requires
        text_set(old, new, id, text),
        single_text_frame(old, id),
    ensures
        frames_with(new, id) == seq![(id, Some(text))],
{
    let rest = new.drop_last();
    assert(new =~= rest.push(new.last()));
    lemma_frames_with_push(rest, new.last(), id);
    if frames_with(old, id).len() == 0 {
        if rest != old {
            let k = choose|k: int| 0 <= k < old.len() && old[k].0 == id && rest == old.remove(k);
            lemma_frames_with_split(old, k, id);
        }
        assert(frames_with(rest, id) =~= Seq::<FrameView>::empty());
    } else {
        let pred = id_is(id);
        let w = frames_with(old, id);
        old.lemma_filter_pred(pred, 0);
        old.lemma_filter_contains_rev(pred, w[0]);
        let i = choose|i: int| 0 <= i < old.len() && old[i] == w[0];
        lemma_first_exists(old, id, i);
        let k = choose|k: int| is_first_with(old, id, k);
        old.lemma_filter_contains(pred, k);
        assert(w.contains(old[k]));
        assert(old[k].1.is_some());
        assert(rest == old.remove(k));
        lemma_frames_with_split(old, k, id);
        assert(frames_with(rest, id).len() == 0);
        assert(frames_with(rest, id) =~= Seq::<FrameView>::empty());
    }
    assert(frames_with(new, id) =~= seq![(id, Some(text))]);
}

/// Once the artist, the title and the album are set, a tag that held at most one text frame
/// for each of them reads back exactly the values given, each in a single frame.
pub proof fn lemma_retag_sets_fields(
    old: Seq<FrameView>,
    new: Seq<FrameView>,
    artist: Seq<char>,
    title: Seq<char>,
    album: Seq<char>,
)
    requires
        retagged(old, new, artist, title, album),
        single_text_frame(old, artist_id()),
        single_text_frame(old, title_id()),
        single_text_frame(old, album_id()),
    ensures
        frames_with(new, artist_id()) == seq![(artist_id(), Some(artist))],
        frames_with(new, title_id()) == seq![(title_id(), Some(title))],
        frames_with(new, album_id()) == seq![(album_id(), Some(album))],
        text_of(new, artist_id()) == Some(artist),
        text_of(new, title_id()) == Some(title),
        text_of(new, album_id()) == Some(album),
{
    lemma_ids_distinct();
    let (m1, m2) = choose|m1: Seq<FrameView>, m2: Seq<FrameView>|
        text_set(old, m1, artist_id(), artist) && text_set(m1, m2, title_id(), title)
            && text_set(m2, new, album_id(), album);
    lemma_text_set_single(old, m1, artist_id(), artist);
    lemma_text_set_keeps_others(old, m1, artist_id(), artist, title_id());
    lemma_text_set_keeps_others(old, m1, artist_id(), artist, album_id());
    lemma_text_set_single(m1, m2, title_id(), title);
    lemma_text_set_keeps_others(m1, m2, title_id(), title, artist_id());
    lemma_text_set_keeps_others(m1, m2, title_id(), title, album_id());
    lemma_text_set_single(m2, new, album_id(), album);
    lemma_text_set_keeps_others(m2, new, album_id(), album, artist_id());
    lemma_text_set_keeps_others(m2, new, album_id(), album, title_id());
}

/// Setting the artist, the title and the album leaves the frames of every other identifier
/// unchanged, in number, order and content.
pub proof fn lemma_retag_keeps_other_frames(
    old: Seq<FrameView>,
    new: Seq<FrameView>,
    artist: Seq<char>,
    title: Seq<char>,
    album: Seq<char>,
    other: Seq<char>,
)
    requires
        retagged(old, new, artist, title, album),
        !is_rewritten_id(other),
    ensures
        frames_with(new, other) == frames_with(old, other),
        text_of(new, other) == text_of(old, other),
{
    let (m1, m2) = choose|m1: Seq<FrameView>, m2: Seq<FrameView>|
        text_set(old, m1, artist_id(), artist) && text_set(m1, m2, title_id(), title)
            && text_set(m2, new, album_id(), album);
    lemma_text_set_keeps_others(old, m1, artist_id(), artist, other);
    lemma_text_set_keeps_others(m1, m2, title_id(), title, other);
    lemma_text_set_keeps_others(m2, new, album_id(), album, other);
}

/// A tag that held no frame ends up holding exactly the three frames set: artist, title and
/// album, in this order.
pub proof fn lemma_retag_of_empty(
    new: Seq<FrameView>,
    artist: Seq<char>,
    title: Seq<char>,
    album: Seq<char>,
)
    requires
        retagged(Seq::<FrameView>::empty(), new, artist, title, album),
    ensures
        new == seq![
            (artist_id(), Some(artist)),
            (title_id(), Some(title)),
            (album_id(), Some(album)),
        ],
{
    lemma_ids_distinct();
    let old = Seq::<FrameView>::empty();
    let (m1, m2) = choose|m1: Seq<FrameView>, m2: Seq<FrameView>|
        text_set(old, m1, artist_id(), artist) && text_set(m1, m2, title_id(), title)
            && text_set(m2, new, album_id(), album);
    assert(m1 =~= m1.drop_last().push(m1.last()));
    assert(m1 =~= seq![(artist_id(), Some(artist))]);
    assert(!holds_id(m1, title_id()));
    assert(m2 =~= m2.drop_last().push(m2.last()));
    assert(m2 =~= seq![(artist_id(), Some(artist)), (title_id(), Some(title))]);
    assert(!holds_id(m2, album_id()));
    assert(new =~= new.drop_last().push(new.last()));
}

/// Two rewrites of the same tag with the same values read back alike, frame by frame, for
/// every identifier: a second run leaves what the first one would have left.
pub proof fn lemma_retag_repeatable(
    old: Seq<FrameView>,
    first: Seq<FrameView>,
    second: Seq<FrameView>,
    artist: Seq<char>,
    title: Seq<char>,
    album: Seq<char>,
    id: Seq<char>,
)
    requires
        retagged(old, first, artist, title, album),
        retagged(old, second, artist, title, album),
        single_text_frame(old, artist_id()),
        single_text_frame(old, title_id()),
        single_text_frame(old, album_id()),
    ensures
        frames_with(second, id) == frames_with(first, id),
        text_of(second, id) == text_of(first, id),
{
    lemma_retag_sets_fields(old, first, artist, title, album);
    lemma_retag_sets_fields(old, second, artist, title, album);
    if !is_rewritten_id(id) {
        lemma_retag_keeps_other_frames(old, first, artist, title, album, id);
        lemma_retag_keeps_other_frames(old, second, artist, title, album, id);
    }
}

/// Sets the artist, the title and the album of `tag`, in this order, as text frames; every
/// other frame stays as it was.
pub fn apply_metadata(tag: &mut id3::Tag, artist: &str, title: &str, album: &str)
    ensures
        retagged(tag_frames(*old(tag)), tag_frames(*final(tag)), artist@, title@, album@),
        forall|id: Seq<char>|
            !is_rewritten_id(id) ==> #[trigger] frames_with(tag_frames(*final(tag)), id)
                == frames_with(tag_frames(*old(tag)), id),
        single_text_frame(tag_frames(*old(tag)), artist_id()) && single_text_frame(
            tag_frames(*old(tag)),
            title_id(),
        ) && single_text_frame(tag_frames(*old(tag)), album_id()) ==> {
            &&& text_of(tag_frames(*final(tag)), artist_id()) == Some(artist@)
            &&& text_of(tag_frames(*final(tag)), title_id()) == Some(title@)
            &&& text_of(tag_frames(*final(tag)), album_id()) == Some(album@)
        },
{
    let ghost f0 = tag_frames(*tag);
    set_artist_frame(tag, artist);
    let ghost f1 = tag_frames(*tag);
    set_title_frame(tag, title);
    let ghost f2 = tag_frames(*tag);
    set_album_frame(tag, album);
    let ghost f3 = tag_frames(*tag);
    proof {
        assert(text_set(f0, f1, artist_id(), artist@) && text_set(f1, f2, title_id(), title@)
            && text_set(f2, f3, album_id(), album@));
        assert(retagged(f0, f3, artist@, title@, album@));
        assert forall|id: Seq<char>| !is_rewritten_id(id) implies #[trigger] frames_with(f3, id)
            == frames_with(f0, id) by {
            lemma_retag_keeps_other_frames(f0, f3, artist@, title@, album@, id);
        }
        if single_text_frame(f0, artist_id()) && single_text_frame(f0, title_id())
            && single_text_frame(f0, album_id()) {
            lemma_retag_sets_fields(f0, f3, artist@, title@, album@);
        }
    }
}

/// Relies on id3::Tag::new: a fresh tag holds no frame.
#[verifier::external_body]
pub(crate) fn empty_tag() -> (r: id3::Tag)
    ensures
        tag_frames(r) == Seq::<FrameView>::empty(),
{
    id3::Tag::new()
}

/// Relies on id3's TagLike::set_artist, which adds a text frame `TPE1` through `add_frame`:
/// the first conflicting frame (same identifier, compared as a text frame) leaves, the new
/// one is pushed last.
#[verifier::external_body]
fn set_artist_frame(tag: &mut id3::Tag, artist: &str)
    ensures
        text_set(tag_frames(*old(tag)), tag_frames(*final(tag)), artist_id(), artist@),
{
    tag.set_artist(artist);
}

/// Relies on id3's TagLike::set_title, which adds a text frame `TIT2` as `set_artist` does.
#[verifier::external_body]
fn set_title_frame(tag: &mut id3::Tag, title: &str)
    ensures
        text_set(tag_frames(*old(tag)), tag_frames(*final(tag)), title_id(), title@),
{
    tag.set_title(title);
}

/// Relies on id3's TagLike::set_album, which adds a text frame `TALB` as `set_artist` does.
#[verifier::external_body]
fn set_album_frame(tag: &mut id3::Tag, album: &str)
    ensures
        text_set(tag_frames(*old(tag)), tag_frames(*final(tag)), album_id(), album@),
{
    tag.set_album(album);
}

} // verus!
