use vstd::prelude::*;
use crate::text::{chars_of, string_from_chars};

verus! {

/// Length of every captcha answer.
pub const ANSWER_LEN: usize = 6;

/// Progress of a captcha challenge.
#[derive(Debug)]
pub struct Captcha {
    pub detected: bool,
    pub solving: bool,
    pub answers: Vec<String>,
    pub image_url: Option<String>,
}

pub open spec fn is_alnum(c: char) -> bool {
    ('0' <= c && c <= '9') || ('a' <= c && c <= 'z') || ('A' <= c && c <= 'Z')
}

/// The letters and digits of `s`, in order.
pub open spec fn alnum_only(s: Seq<char>) -> Seq<char>
    decreases s.len(),
{
    if s.len() == 0 {
        s
    } else if is_alnum(s.last()) {
        alnum_only(s.drop_last()).push(s.last())
    } else {
        alnum_only(s.drop_last())
    }
}

/// The answer that recognised text gives: its letters and digits, when
/// there are exactly `ANSWER_LEN` of them.
pub open spec fn answer_of(s: Seq<char>) -> Option<Seq<char>> {
    if alnum_only(s).len() == ANSWER_LEN { Some(alnum_only(s)) } else { None }
}

impl Captcha {
    pub fn new() -> (r: Captcha)
        ensures
            !r.detected,
            !r.solving,
            r.answers@.len() == 0,
            r.image_url is None,
    {
        Captcha { detected: false, solving: false, answers: Vec::new(), image_url: None }
    }

    /// A challenge showing the image at `url` has appeared.
    pub fn begin(&mut self, url: String)
        ensures
            final(self).detected,
            final(self).solving,
            final(self).image_url == Some(url),
            final(self).answers == old(self).answers,
    {
        self.detected = true;
        self.solving = true;
        self.image_url = Some(url);
    }

    /// Takes the text recognised in the image; keeps and returns the answer
    /// it gives, if any. Either way solving ends.
    pub fn record_text(&mut self, text: &str) -> (r: Option<String>)
        ensures
            !final(self).solving,
            final(self).detected == old(self).detected,
            final(self).image_url == old(self).image_url,
            r matches Some(a) ==> answer_of(text@) == Some(a@) && final(self).answers@ == old(self).answers@.push(a),
            r is None ==> answer_of(text@) is None && final(self).answers == old(self).answers,
    {
        self.solving = false;
        let v = chars_of(text);
        let mut kept: Vec<char> = Vec::new();
        let mut i: usize = 0;
        while i < v.len()
            invariant
                i <= v@.len(),
                kept@ == alnum_only(v@.take(i as int)),
            decreases v@.len() - i,
        {
            assert(v@.take(i + 1).drop_last() =~= v@.take(i as int));
            let c = v[i];
            if ('0' <= c && c <= '9') || ('a' <= c && c <= 'z') || ('A' <= c && c <= 'Z') {
                kept.push(c);
            }
            i = i + 1;
        }
        assert(v@.take(v@.len() as int) =~= v@);
        if kept.len() == ANSWER_LEN {
            let a = string_from_chars(&kept);
            self.answers.push(a.clone());
            Some(a)
        } else {
            None
        }
    }

    /// The challenge was cleared.
    pub fn reset(&mut self)
        ensures
            !final(self).detected,
            !final(self).solving,
            final(self).answers@.len() == 0,
            final(self).image_url is None,
    {
        self.detected = false;
        self.solving = false;
        self.answers = Vec::new();
        self.image_url = None;
    }
}

} // verus!
