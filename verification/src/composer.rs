//! The composer shared by new posts, replies, post edits and the bio: its
//! mode, its length limit, and the checks made before anything is sent.
use vstd::prelude::*;
use crate::emoji::{count_characters, parse_emoji_shortcodes, spec_parse_emoji};
use crate::numfmt::{decimal, decimal_chars};
use crate::state::InputMode;
use crate::text::{chars_of, concat, string_from_chars, trim, trim_chars};

verus! {

/// What the composer is writing.
pub enum ComposerMode {
    NewPost,
    Reply { parent_post_id: u128, parent_author: String, parent_content: String },
    EditPost { post_id: u128 },
    EditBio,
}

/// The composer: open in some mode, or closed; and the most characters it
/// takes. The text itself is edited by the caller's text area.
pub struct ComposerState {
    pub mode: Option<ComposerMode>,
    pub max_chars: usize,
}

/// Longest post or reply, in characters.
pub const MAX_POST_CHARS: usize = 280;

/// Longest bio, in characters.
pub const MAX_BIO_CHARS: usize = 160;

/// Which view shows a composer error.
#[derive(Debug, Clone, Copy, PartialEq, Eq, Structural)]
pub enum ErrorPlace {
    /// The feed (new posts).
    Feed,
    /// The thread view (replies and edits).
    Thread,
    /// The profile (the bio).
    Profile,
}

/// What submitting the composer leads to.
pub enum Submission {
    /// Nothing is open.
    Nothing,
    /// The text is refused: show `message` in `place`.
    Refused { place: ErrorPlace, message: String },
    /// Send `content` (shortcodes replaced by emojis).
    NewPost { content: String },
    Reply { parent_post_id: u128, content: String },
    EditPost { post_id: u128, content: String },
    EditBio { content: String },
}

/// Where errors of mode `m` are shown.
pub open spec fn place_of(m: ComposerMode) -> ErrorPlace {
    match m {
        ComposerMode::NewPost => ErrorPlace::Feed,
        ComposerMode::Reply { .. } => ErrorPlace::Thread,
        ComposerMode::EditPost { .. } => ErrorPlace::Thread,
        ComposerMode::EditBio => ErrorPlace::Profile,
    }
}

/// The error for empty text in mode `m`.
pub open spec fn empty_message(m: ComposerMode) -> Seq<char> {
    match m {
        ComposerMode::NewPost => "Validation Error: Cannot post empty content."@,
        ComposerMode::Reply { .. } => "Validation Error: Cannot post empty reply."@,
        ComposerMode::EditPost { .. } => "Validation Error: Cannot save empty post."@,
        ComposerMode::EditBio => "Validation Error: Bio cannot be empty."@,
    }
}

/// The error for text of `count` characters over the limit `max`.
pub open spec fn too_long_message(max: nat, count: nat) -> Seq<char> {
    "Validation Error: Content exceeds "@ + decimal(max) + " characters (current: "@ + decimal(count)
        + ")"@
}

/// What submitting `content` in mode `mode` with limit `max` leads to:
/// empty (blank) text is refused, then text over the limit; otherwise the
/// text, with shortcodes replaced, goes to the request of the mode.
pub open spec fn spec_submission(mode: Option<ComposerMode>, max: nat, content: Seq<char>, s: Submission) -> bool {
    match mode {
        None => s is Nothing,
        Some(m) => if trim(content).len() == 0 {
            s matches Submission::Refused { place, message } && place == place_of(m) && message@
                == empty_message(m)
        } else if content.len() > max {
            s matches Submission::Refused { place, message } && place == place_of(m) && message@
                == too_long_message(max, content.len())
        } else {
            let body = spec_parse_emoji(content);
            match m {
                ComposerMode::NewPost => s matches Submission::NewPost { content: c } && c@ == body,
                ComposerMode::Reply { parent_post_id, .. } => s matches Submission::Reply {
                    parent_post_id: p,
                    content: c,
                } && p == parent_post_id && c@ == body,
                ComposerMode::EditPost { post_id } => s matches Submission::EditPost {
                    post_id: p,
                    content: c,
                } && p == post_id && c@ == body,
                ComposerMode::EditBio => s matches Submission::EditBio { content: c } && c@ == body,
            }
        },
    }
}

/// The lines of a text area joined by newlines.
pub open spec fn joined_lines(lines: Seq<Seq<char>>) -> Seq<char>
    decreases lines.len(),
{
    if lines.len() == 0 {
        Seq::empty()
    } else if lines.len() == 1 {
        lines[0]
    } else {
        joined_lines(lines.drop_last()) + seq!['\n'] + lines.last()
    }
}

fn text_of(s: &str) -> (r: String)
    ensures
        r@ == s@,
{
    crate::text::owned(s)
}

impl ComposerState {
    /// A closed composer with the post limit.
    pub fn new() -> (s: Self)
        ensures
            s.mode is None,
            s.max_chars == 280,
    {
        ComposerState { mode: None, max_chars: MAX_POST_CHARS }
    }

    /// The composer is open.
    pub fn is_open(&self) -> (r: bool)
        ensures
            r == self.mode is Some,
    {
        self.mode.is_some()
    }

    /// The text of a text area whose lines are `lines`.
    pub fn get_content(lines: &Vec<String>) -> (r: String)
        ensures
            r@ == joined_lines(lines@.map_values(|l: String| l@)),
    {
        let mut out: Vec<char> = Vec::new();
        let mut i: usize = 0;
        while i < lines.len()
            invariant
                0 <= i <= lines@.len(),
                out@ == joined_lines(lines@.subrange(0, i as int).map_values(|l: String| l@)),
            decreases lines@.len() - i,
        {
            let ghost prev = lines@.subrange(0, i as int).map_values(|l: String| l@);
            let ghost next = lines@.subrange(0, i + 1).map_values(|l: String| l@);
            proof {
                assert(next.drop_last() =~= prev);
                assert(next.last() == lines@[i as int]@);
            }
            if i > 0 {
                out.push('\n');
            }
            let cs = chars_of(lines[i].as_str());
            out = concat(out.as_slice(), cs.as_slice());
            proof {
                if i == 0 {
                    assert(out@ =~= joined_lines(next));
                } else {
                    assert(out@ =~= joined_lines(next));
                }
            }
            i = i + 1;
        }
        proof {
            assert(lines@.subrange(0, lines@.len() as int) =~= lines@);
        }
        string_from_chars(out.as_slice())
    }

    /// The number of characters of `content`.
    pub fn char_count(content: &str) -> (r: usize)
        ensures
            r == content@.len(),
    {
        count_characters(content)
    }

    /// Open the composer for a new post.
    pub fn open_composer_new_post(&mut self, input_mode: &mut InputMode)
        ensures
            final(self).mode == Some(ComposerMode::NewPost),
            final(self).max_chars == 280,
            *final(input_mode) == InputMode::Typing,
    {
        self.mode = Some(ComposerMode::NewPost);
        self.max_chars = MAX_POST_CHARS;
        *input_mode = InputMode::Typing;
    }

    /// Open the composer for a reply to a post.
    pub fn open_composer_reply(
        &mut self,
        parent_post_id: u128,
        parent_author: String,
        parent_content: String,
        input_mode: &mut InputMode,
    )
        ensures
            final(self).mode == Some(
                ComposerMode::Reply { parent_post_id, parent_author, parent_content },
            ),
            final(self).max_chars == 280,
            *final(input_mode) == InputMode::Typing,
    {
        self.mode = Some(ComposerMode::Reply { parent_post_id, parent_author, parent_content });
        self.max_chars = MAX_POST_CHARS;
        *input_mode = InputMode::Typing;
    }

    /// Open the composer to edit a post (the caller loads its text).
    pub fn open_composer_edit_post(&mut self, post_id: u128, input_mode: &mut InputMode)
        ensures
            final(self).mode == Some(ComposerMode::EditPost { post_id }),
            final(self).max_chars == 280,
            *final(input_mode) == InputMode::Typing,
    {
        self.mode = Some(ComposerMode::EditPost { post_id });
        self.max_chars = MAX_POST_CHARS;
        *input_mode = InputMode::Typing;
    }

    /// Open the composer to edit the bio (the caller loads its text).
    pub fn open_composer_edit_bio(&mut self, input_mode: &mut InputMode)
        ensures
            final(self).mode == Some(ComposerMode::EditBio),
            final(self).max_chars == 160,
            *final(input_mode) == InputMode::Typing,
    {
        self.mode = Some(ComposerMode::EditBio);
        self.max_chars = MAX_BIO_CHARS;
        *input_mode = InputMode::Typing;
    }

    /// Close the composer.
    pub fn close_composer(&mut self, input_mode: &mut InputMode)
        ensures
            final(self).mode is None,
            final(self).max_chars == old(self).max_chars,
            *final(input_mode) == InputMode::Navigation,
    {
        self.mode = None;
        *input_mode = InputMode::Navigation;
    }

    /// Whether a typed character may go into text `content`: only while it
    /// is under the limit.
    pub fn accepts_char(&self, content: &str) -> (r: bool)
        ensures
            r == (content@.len() < self.max_chars),
    {
        count_characters(content) < self.max_chars
    }

    /// What submitting text `content` leads to (see `spec_submission`).
    pub fn submit_composer(&self, content: &str) -> (r: Submission)
        ensures
            spec_submission(self.mode, self.max_chars as nat, content@, r),
    {
        let m = match &self.mode {
            Some(m) => m,
            None => {
                return Submission::Nothing;
            },
        };
        let cs = chars_of(content);
        let t = trim_chars(cs.as_slice());
        if t.len() == 0 {
            let (place, message) = match m {
                ComposerMode::NewPost => (ErrorPlace::Feed, text_of("Validation Error: Cannot post empty content.")),
                ComposerMode::Reply { .. } => (ErrorPlace::Thread, text_of("Validation Error: Cannot post empty reply.")),
                ComposerMode::EditPost { .. } => (ErrorPlace::Thread, text_of("Validation Error: Cannot save empty post.")),
                ComposerMode::EditBio => (ErrorPlace::Profile, text_of("Validation Error: Bio cannot be empty.")),
            };
            return Submission::Refused { place, message };
        }
        let count = count_characters(content);
        if count > self.max_chars {
            let place = match m {
                ComposerMode::NewPost => ErrorPlace::Feed,
                ComposerMode::Reply { .. } => ErrorPlace::Thread,
                ComposerMode::EditPost { .. } => ErrorPlace::Thread,
                ComposerMode::EditBio => ErrorPlace::Profile,
            };
            let a = chars_of("Validation Error: Content exceeds ");
            let b = decimal_chars(self.max_chars as u128);
            let c = chars_of(" characters (current: ");
            let d = decimal_chars(count as u128);
            let e = chars_of(")");
            let ab = concat(a.as_slice(), b.as_slice());
            let abc = concat(ab.as_slice(), c.as_slice());
            let abcd = concat(abc.as_slice(), d.as_slice());
            let all = concat(abcd.as_slice(), e.as_slice());
            return Submission::Refused { place, message: string_from_chars(all.as_slice()) };
        }
        let body = parse_emoji_shortcodes(content);
        match m {
            ComposerMode::NewPost => Submission::NewPost { content: body },
            ComposerMode::Reply { parent_post_id, .. } => Submission::Reply {
                parent_post_id: *parent_post_id,
                content: body,
            },
            ComposerMode::EditPost { post_id } => Submission::EditPost { post_id: *post_id, content: body },
            ComposerMode::EditBio => Submission::EditBio { content: body },
        }
    }
}

} // verus!
