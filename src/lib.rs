// Rewrites the artist, title and album of an MP3 file's ID3 tag into a renamed copy.
// `tag_model` states what the `id3` crate does to a tag's frames; `retag` holds the step
// machine that decides, event by event, what a rewrite does next.

pub mod retag;
pub mod tag_model;
