//! Writing posts.

use vstd::prelude::*;
use crate::model::post::Post;

verus! {

/// The body of a request to write a post.
#[derive(Clone, Debug)]
pub struct NewPost {
    pub content: String,
}

/// Is `c` a lower-case hexadecimal digit?
pub open spec fn is_lower_hex_digit(c: char) -> bool {
    (48 <= (c as u32) && (c as u32) <= 57) || (97 <= (c as u32) && (c as u32) <= 102)
}

/// Is `s` a version-4 UUID in lower-case hyphenated form: 36 characters,
/// hyphens at 8, 13, 18 and 23, lower-case hexadecimal digits elsewhere, the
/// version digit `4` at 14 and a variant digit among `8`, `9`, `a`, `b` at 19?
pub open spec fn is_v4_uuid_text(s: Seq<char>) -> bool {
    &&& s.len() == 36
    &&& forall|i: int|
        0 <= i < 36 ==> if i == 8 || i == 13 || i == 18 || i == 23 {
            s[i] == '-'
        } else {
            is_lower_hex_digit(#[trigger] s[i])
        }
    &&& s[14] == '4'
    &&& (s[19] == '8' || s[19] == '9' || s[19] == 'a' || s[19] == 'b')
}

/// A fresh random identifier: `uuid::Uuid::new_v4()` written with `to_string`.
/// It is random, so only its form is claimed, as the source shows it:
/// `Display` writes the lower-case hyphenated form, and `new_v4` sets the
/// version bits to 4 and the variant bits to `10`. (`new_v4` panics only when
/// the operating system's random source fails.)
#[verifier::external_body]
fn new_post_id() -> (id: String)
    ensures
        is_v4_uuid_text(id@),
{
    uuid::Uuid::new_v4().to_string()
}

/// The current UTC time in microseconds since the epoch, from
/// `chrono::Utc::now().timestamp_micros()`. It depends on the clock: nothing
/// is claimed of it.
#[verifier::external_body]
fn now_micros() -> (t: i64) {
    chrono::Utc::now().timestamp_micros()
}

/// The post `user_id` writes with `content`, under a fresh id, dated now.
pub fn new_post(user_id: String, body: NewPost) -> (p: Post)
    ensures
        p.user_id == user_id,
        p.content == body.content,
        is_v4_uuid_text(p.id@),
{
    Post { id: new_post_id(), user_id, content: body.content, published_at: now_micros() }
}

} // verus!
