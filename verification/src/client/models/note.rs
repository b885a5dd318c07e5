//! Notes as the desktop client keeps them, with the values derived from
//! their content: excerpt, word count and reading time.
use vstd::prelude::*;
use crate::clock::{new_uuid_v4, now_timestamp, uuid_v4_text, MAX_TIMESTAMP, MIN_TIMESTAMP};
use crate::text::{chars_of, string_from_range};

verus! {

/// A note of the client.
#[derive(Debug)]
pub struct Note {
    pub id: String,
    pub title: String,
    /// The content (Tiptap JSON or Markdown).
    pub content: String,
    /// The first 200 characters, for content longer than that.
    pub excerpt: Option<String>,
    pub markdown_cache: Option<String>,
    pub workspace_id: Option<String>,
    pub folder_id: Option<String>,
    pub is_favorite: bool,
    pub is_pinned: bool,
    pub author: Option<String>,
    pub is_deleted: bool,
    pub created_at: i64,
    pub updated_at: i64,
    pub deleted_at: Option<i64>,
    pub word_count: u32,
    pub read_time_minutes: u32,
    /// Version of the server's copy this note is based on.
    pub server_ver: i32,
    /// The note changed since its last sync.
    pub is_dirty: bool,
    pub last_synced_at: Option<i64>,
}

/// Body of a request that creates a note.
#[derive(Debug, Clone)]
pub struct CreateNoteRequest {
    pub title: String,
    pub content: String,
    pub folder_id: Option<String>,
}

/// Body of a request that changes a note; absent fields stay as they are.
#[derive(Debug, Clone)]
pub struct UpdateNoteRequest {
    pub id: String,
    pub title: Option<String>,
    pub content: Option<String>,
    pub folder_id: Option<String>,
    pub is_favorite: Option<bool>,
    pub is_pinned: Option<bool>,
    pub author: Option<String>,
}

/// Length of an excerpt, in characters.
pub const EXCERPT_CHARS: usize = 200usize;

/// Words read per minute.
pub const WORDS_PER_MINUTE: u32 = 200u32;

/// Characters with the Unicode `White_Space` property (what
/// `char::is_whitespace` tests).
pub open spec fn is_white_space(c: char) -> bool {
    ||| '\u{9}' <= c <= '\u{d}'
    ||| c == ' '
    ||| c == '\u{85}'
    ||| c == '\u{a0}'
    ||| c == '\u{1680}'
    ||| '\u{2000}' <= c <= '\u{200a}'
    ||| c == '\u{2028}'
    ||| c == '\u{2029}'
    ||| c == '\u{202f}'
    ||| c == '\u{205f}'
    ||| c == '\u{3000}'
}

/// Whether a character is white space.
pub fn is_white_space_char(c: char) -> (r: bool)
    ensures
        r == is_white_space(c),
{
    ('\u{9}' <= c && c <= '\u{d}') || c == ' ' || c == '\u{85}' || c == '\u{a0}' || c == '\u{1680}'
        || ('\u{2000}' <= c && c <= '\u{200a}') || c == '\u{2028}' || c == '\u{2029}' || c
        == '\u{202f}' || c == '\u{205f}' || c == '\u{3000}'
}

/// Number of words of `s`: maximal runs of characters that are not white
/// space (each counted where it starts).
pub open spec fn word_count_of(s: Seq<char>) -> nat
    decreases s.len(),
{
    if s.len() == 0 {
        0
    } else {
        word_count_of(s.drop_last()) + if !is_white_space(s.last()) && (s.len() == 1
            || is_white_space(s[s.len() - 2])) {
            1nat
        } else {
            0nat
        }
    }
}

/// Which characters separate words: space, tab, line feed and carriage
/// return do; visible ASCII characters (letters, digits, punctuation) do
/// not.
pub proof fn lemma_white_space_chars(c: char)
    ensures
        (c == ' ' || c == '\t' || c == '\n' || c == '\r') ==> is_white_space(c),
        ('!' <= c && c <= '~') ==> !is_white_space(c),
{
}

/// A text without white space that is not empty is one word, whatever its
/// characters (digits and punctuation included).
pub proof fn lemma_word_count_run(s: Seq<char>)
    requires
        s.len() > 0,
        forall|i: int| 0 <= i < s.len() ==> !is_white_space(#[trigger] s[i]),
    ensures
        word_count_of(s) == 1,
    decreases s.len(),
{
    let t = s.drop_last();
    if s.len() > 1 {
        assert forall|i: int| 0 <= i < t.len() implies !is_white_space(#[trigger] t[i]) by {
            assert(t[i] == s[i]);
        }
        lemma_word_count_run(t);
        assert(!is_white_space(s[s.len() - 2]));
    } else {
        assert(t.len() == 0);
        assert(word_count_of(t) == 0);
        assert(!is_white_space(s[0]));
        assert(s.last() == s[0]);
    }
}

/// A text of white space only has no word.
pub proof fn lemma_word_count_blank(s: Seq<char>)
    requires
        forall|i: int| 0 <= i < s.len() ==> is_white_space(#[trigger] s[i]),
    ensures
        word_count_of(s) == 0,
    decreases s.len(),
{
    if s.len() > 0 {
        lemma_word_count_blank(s.drop_last());
    }
}

/// White space splits a text: the words of `a`, a white-space character
/// and `b` are the words of `a` and the words of `b`.
pub proof fn lemma_word_count_split(a: Seq<char>, c: char, b: Seq<char>)
    requires
        is_white_space(c),
    ensures
        word_count_of(a + seq![c] + b) == word_count_of(a) + word_count_of(b),
    decreases b.len(),
{
    let s = a + seq![c] + b;
    if b.len() == 0 {
        assert(s.drop_last() =~= a);
        assert(s.last() == c);
    } else {
        lemma_word_count_split(a, c, b.drop_last());
        assert(s.drop_last() =~= a + seq![c] + b.drop_last());
        assert(s.last() == b.last());
        if b.len() == 1 {
            assert(s[s.len() - 2] == c);
        } else {
            assert(s[s.len() - 2] == b[b.len() - 2]);
        }
    }
}

/// The excerpt of a content: its first 200 characters when it is longer.
pub open spec fn excerpt_of(s: Seq<char>) -> Option<Seq<char>> {
    if s.len() <= EXCERPT_CHARS {
        None
    } else {
        Some(s.take(EXCERPT_CHARS as int))
    }
}

/// Minutes to read `words` words, at least one.
pub open spec fn read_time_of(words: u32) -> u32 {
    if words / WORDS_PER_MINUTE >= 1 {
        (words / WORDS_PER_MINUTE) as u32
    } else {
        1
    }
}

/// The view of an optional string.
pub open spec fn opt_view(o: Option<String>) -> Option<Seq<char>> {
    match o {
        Some(s) => Some(s@),
        None => None,
    }
}

impl Note {
    /// The excerpt of a content (first 200 characters), when it is longer
    /// than that.
    pub fn generate_excerpt(content: &str) -> (r: Option<String>)
        ensures
            opt_view(r) == excerpt_of(content@),
    {
        let cs = chars_of(content);
        if cs.len() <= EXCERPT_CHARS {
            None
        } else {
            Some(string_from_range(cs.as_slice(), 0, EXCERPT_CHARS))
        }
    }

    /// Number of words of a content (split at white space), as the 32-bit
    /// count the note stores.
    pub fn count_words(content: &str) -> (r: u32)
        ensures
            r == word_count_of(content@) as u32,
    {
        let cs = chars_of(content);
        let n = cs.len();
        let mut count: usize = 0;
        let mut prev_ws = true;
        for i in 0..n
            invariant
                n == cs@.len(),
                cs@ == content@,
                count == word_count_of(cs@.take(i as int)),
                count <= i,
                prev_ws == (i == 0 || is_white_space(cs@[i - 1])),
        {
            let ws = is_white_space_char(cs[i]);
            assert(cs@.take(i + 1).drop_last() =~= cs@.take(i as int));
            if !ws && prev_ws {
                count = count + 1;
            }
            prev_ws = ws;
        }
        assert(cs@.take(n as int) =~= cs@);
        count as u32
    }

    /// Minutes to read a note of `word_count` words: one per 200 words,
    /// at least one.
    pub fn calculate_read_time(word_count: u32) -> (r: u32)
        ensures
            r == read_time_of(word_count),
    {
        let m = word_count / WORDS_PER_MINUTE;
        if m >= 1 {
            m
        } else {
            1
        }
    }

    /// Replaces the content and recomputes excerpt, word count and reading
    /// time; nothing else changes.
    pub fn update_content(&mut self, content: String)
        ensures
            final(self).content == content,
            opt_view(final(self).excerpt) == excerpt_of(content@),
            final(self).word_count == word_count_of(content@) as u32,
            final(self).read_time_minutes == read_time_of(final(self).word_count),
            final(self).id == old(self).id,
            final(self).title == old(self).title,
            final(self).markdown_cache == old(self).markdown_cache,
            final(self).workspace_id == old(self).workspace_id,
            final(self).folder_id == old(self).folder_id,
            final(self).is_favorite == old(self).is_favorite,
            final(self).is_pinned == old(self).is_pinned,
            final(self).author == old(self).author,
            final(self).is_deleted == old(self).is_deleted,
            final(self).created_at == old(self).created_at,
            final(self).updated_at == old(self).updated_at,
            final(self).deleted_at == old(self).deleted_at,
            final(self).server_ver == old(self).server_ver,
            final(self).is_dirty == old(self).is_dirty,
            final(self).last_synced_at == old(self).last_synced_at,
    {
        self.excerpt = Self::generate_excerpt(content.as_str());
        self.word_count = Self::count_words(content.as_str());
        self.read_time_minutes = Self::calculate_read_time(self.word_count);
        self.content = content;
    }

    /// A new note with identifier `id`, created at `now`: not deleted,
    /// favourite or pinned, dirty, never synced, with the derived values of
    /// its content.
    pub fn new_at(id: String, now: i64, title: String, content: String, folder_id: Option<String>) -> (r: Note)
        ensures
            r.id == id,
            r.title == title,
            r.content == content,
            opt_view(r.excerpt) == excerpt_of(content@),
            r.markdown_cache is None,
            r.workspace_id is None,
            r.folder_id == folder_id,
            !r.is_favorite,
            !r.is_pinned,
            r.author is None,
            !r.is_deleted,
            r.created_at == now,
            r.updated_at == now,
            r.deleted_at is None,
            r.word_count == word_count_of(content@) as u32,
            r.read_time_minutes == read_time_of(r.word_count),
            r.server_ver == 0,
            r.is_dirty,
            r.last_synced_at is None,
    {
        let word_count = Self::count_words(content.as_str());
        let excerpt = Self::generate_excerpt(content.as_str());
        Note {
            id,
            title,
            excerpt,
            markdown_cache: None,
            content,
            workspace_id: None,
            folder_id,
            is_favorite: false,
            is_pinned: false,
            author: None,
            is_deleted: false,
            created_at: now,
            updated_at: now,
            deleted_at: None,
            word_count,
            read_time_minutes: Self::calculate_read_time(word_count),
            server_ver: 0,
            is_dirty: true,
            last_synced_at: None,
        }
    }

    /// A new note with a fresh random identifier, created now (see `new_at`).
    pub fn new(title: String, content: String, folder_id: Option<String>) -> (r: Note)
        ensures
            uuid_v4_text(r.id@),
            MIN_TIMESTAMP <= r.created_at <= MAX_TIMESTAMP,
            r.updated_at == r.created_at,
            r.title == title,
            r.content == content,
            opt_view(r.excerpt) == excerpt_of(content@),
            r.folder_id == folder_id,
            r.word_count == word_count_of(content@) as u32,
            r.read_time_minutes == read_time_of(r.word_count),
            !r.is_deleted && !r.is_favorite && !r.is_pinned && r.is_dirty,
            r.server_ver == 0,
            r.last_synced_at is None,
    {
        let now = now_timestamp();
        let id = new_uuid_v4();
        Self::new_at(id, now, title, content, folder_id)
    }

    /// A copy of the note made at `now` with identifier `id`, titled
    /// "<title> (<suffix>)": a new, dirty, never synced note with the same
    /// content, place and marks.
    pub fn conflict_copy_at(&self, id: String, now: i64, suffix: &str) -> (r: Note)
        ensures
            r.id == id,
            r.title@ == self.title@ + " ("@ + suffix@ + ")"@,
            r.content@ == self.content@,
            opt_view(r.excerpt) == opt_view(self.excerpt),
            opt_view(r.markdown_cache) == opt_view(self.markdown_cache),
            opt_view(r.workspace_id) == opt_view(self.workspace_id),
            opt_view(r.folder_id) == opt_view(self.folder_id),
            r.is_favorite == self.is_favorite,
            r.is_pinned == self.is_pinned,
            opt_view(r.author) == opt_view(self.author),
            !r.is_deleted,
            r.created_at == now,
            r.updated_at == now,
            r.deleted_at is None,
            r.word_count == self.word_count,
            r.read_time_minutes == self.read_time_minutes,
            r.server_ver == 0,
            r.is_dirty,
            r.last_synced_at is None,
    {
        let mut title = self.title.clone();
        title.append(" (");
        title.append(suffix);
        title.append(")");
        Note {
            id,
            title,
            excerpt: clone_opt(&self.excerpt),
            markdown_cache: clone_opt(&self.markdown_cache),
            content: self.content.clone(),
            workspace_id: clone_opt(&self.workspace_id),
            folder_id: clone_opt(&self.folder_id),
            is_favorite: self.is_favorite,
            is_pinned: self.is_pinned,
            author: clone_opt(&self.author),
            is_deleted: false,
            created_at: now,
            updated_at: now,
            deleted_at: None,
            word_count: self.word_count,
            read_time_minutes: self.read_time_minutes,
            server_ver: 0,
            is_dirty: true,
            last_synced_at: None,
        }
    }

    /// A conflict copy with a fresh identifier, made now (see `conflict_copy_at`).
    pub fn conflict_copy(&self, suffix: &str) -> (r: Note)
        ensures
            uuid_v4_text(r.id@),
            MIN_TIMESTAMP <= r.created_at <= MAX_TIMESTAMP,
            r.updated_at == r.created_at,
            r.title@ == self.title@ + " ("@ + suffix@ + ")"@,
            r.content@ == self.content@,
            r.server_ver == 0,
            r.is_dirty,
            !r.is_deleted,
    {
        let now = now_timestamp();
        let id = new_uuid_v4();
        self.conflict_copy_at(id, now, suffix)
    }
}

/// A copy of an optional text.
pub fn clone_opt(o: &Option<String>) -> (r: Option<String>)
    ensures
        opt_view(r) == opt_view(*o),
{
    match o {
        Some(s) => Some(s.clone()),
        None => None,
    }
}


/// A note takes at least a minute to read.
pub proof fn lemma_read_time_positive(words: u32)
    ensures
        read_time_of(words) >= 1,
{
}

/// An excerpt is the first 200 characters of a longer content.
pub proof fn lemma_excerpt_is_prefix(s: Seq<char>)
    ensures
        excerpt_of(s) matches Some(e) ==> e.len() == EXCERPT_CHARS && s.len() > EXCERPT_CHARS
            && s.subrange(0, EXCERPT_CHARS as int) == e,
{
}

} // verus!
