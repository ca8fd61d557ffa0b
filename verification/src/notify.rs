//! The notifier's pure half: the notification payload and its JSON encoding.
//!
//! A notification is one HTTP POST whose body is the JSON object
//! `{"user": ..., "user_icon_url": ..., "meeting_status": ...}`. The encoding
//! below is specified character by character: both string fields are escaped
//! per the JSON grammar (quote, backslash, and control characters), so the
//! body is valid JSON for every user name and icon URL. The POST itself and
//! its logging happen outside the library; [`is_success_status`] decides how
//! the response is judged.

use vstd::prelude::*;

verus! {

/// The body of one notification POST.
pub struct NotificationPayload {
    pub user_name: String,
    pub user_icon: String,
    pub meeting_status: bool,
}

/// The lowercase hexadecimal digit of a value below 16.
pub open spec fn hex_digit(v: nat) -> char {
    if v == 0 {
        '0'
    } else if v == 1 {
        '1'
    } else if v == 2 {
        '2'
    } else if v == 3 {
        '3'
    } else if v == 4 {
        '4'
    } else if v == 5 {
        '5'
    } else if v == 6 {
        '6'
    } else if v == 7 {
        '7'
    } else if v == 8 {
        '8'
    } else if v == 9 {
        '9'
    } else if v == 10 {
        'a'
    } else if v == 11 {
        'b'
    } else if v == 12 {
        'c'
    } else if v == 13 {
        'd'
    } else if v == 14 {
        'e'
    } else {
        'f'
    }
}

/// How one character appears inside a JSON string literal: quote and
/// backslash get a backslash escape, control characters become `\u00XX`,
/// everything else stands as itself.
pub open spec fn escape_char(c: char) -> Seq<char> {
    if c == '"' {
        seq!['\\', '"']
    } else if c == '\\' {
        seq!['\\', '\\']
    } else if (c as u32) < 32 {
        seq!['\\', 'u', '0', '0', hex_digit((c as u32 / 16) as nat), hex_digit(
            (c as u32 % 16) as nat,
        )]
    } else {
        seq![c]
    }
}

/// A whole string escaped for use inside a JSON string literal.
pub open spec fn escape_seq(s: Seq<char>) -> Seq<char>
    decreases s.len(),
{
    if s.len() == 0 {
        Seq::empty()
    } else {
        escape_char(s[0]) + escape_seq(s.drop_first())
    }
}

/// Escaping a sequence extended by one character appends that character's
/// escape.
proof fn lemma_escape_seq_snoc(s: Seq<char>, c: char)
    ensures
        escape_seq(s.push(c)) == escape_seq(s) + escape_char(c),
    decreases s.len(),
{
    let p = s.push(c);
    if s.len() == 0 {
        assert(p[0] == c);
        assert(p.drop_first() =~= Seq::<char>::empty());
        assert(escape_seq(p) == escape_char(c) + escape_seq(Seq::<char>::empty()));
        assert(escape_char(c) + Seq::<char>::empty() =~= Seq::<char>::empty() + escape_char(c));
    } else {
        assert(p[0] == s[0]);
        assert(p.drop_first() =~= s.drop_first().push(c));
        lemma_escape_seq_snoc(s.drop_first(), c);
        assert(escape_seq(p) == escape_char(s[0]) + (escape_seq(s.drop_first()) + escape_char(c)));
        assert(escape_char(s[0]) + (escape_seq(s.drop_first()) + escape_char(c)) =~= (escape_char(
            s[0],
        ) + escape_seq(s.drop_first())) + escape_char(c));
    }
}

/// Relies on `String::push`: appends exactly one character at the end.
#[verifier::external_body]
fn push_char(s: &mut String, c: char)
    ensures
        final (s)@ == old(s)@.push(c),
{
    s.push(c);
}

/// The lowercase hexadecimal digit of a value below 16, executably.
fn hex_char(v: u8) -> (c: char)
    requires
        v < 16,
    ensures
        c == hex_digit(v as nat),
{
    if v == 0 {
        '0'
    } else if v == 1 {
        '1'
    } else if v == 2 {
        '2'
    } else if v == 3 {
        '3'
    } else if v == 4 {
        '4'
    } else if v == 5 {
        '5'
    } else if v == 6 {
        '6'
    } else if v == 7 {
        '7'
    } else if v == 8 {
        '8'
    } else if v == 9 {
        '9'
    } else if v == 10 {
        'a'
    } else if v == 11 {
        'b'
    } else if v == 12 {
        'c'
    } else if v == 13 {
        'd'
    } else if v == 14 {
        'e'
    } else {
        'f'
    }
}

/// Escape a string for use inside a JSON string literal.
pub fn json_escape(s: &str) -> (out: String)
    ensures
        out@ == escape_seq(s@),
{
    let n = s.unicode_len();
    let mut out = String::new();
    let mut i: usize = 0;
    while i < n
        invariant
            i <= n,
            n == s@.len(),
            out@ == escape_seq(s@.take(i as int)),
        decreases n - i,
    {
        let c = s.get_char(i);
        if c == '"' {
            out.append("\\\"");
            proof {
                reveal_strlit("\\\"");
            }
        } else if c == '\\' {
            out.append("\\\\");
            proof {
                reveal_strlit("\\\\");
            }
        } else if (c as u32) < 32 {
            let v = c as u32;
            out.append("\\u00");
            let hi = hex_char((v / 16) as u8);
            let lo = hex_char((v % 16) as u8);
            push_char(&mut out, hi);
            push_char(&mut out, lo);
            proof {
                reveal_strlit("\\u00");
            }
        } else {
            push_char(&mut out, c);
        }
        proof {
            lemma_escape_seq_snoc(s@.take(i as int), s@[i as int]);
            assert(s@.take(i as int).push(s@[i as int]) =~= s@.take(i as int + 1));
            assert(out@ =~= escape_seq(s@.take(i as int)) + escape_char(s@[i as int]));
        }
        i = i + 1;
    }
    proof {
        assert(s@.take(n as int) =~= s@);
    }
    out
}

/// The text `true` or `false` of a boolean, as JSON writes it.
pub open spec fn bool_text(b: bool) -> Seq<char> {
    if b {
        "true"@
    } else {
        "false"@
    }
}

/// The exact JSON body of a notification: both string fields escaped, the
/// status bare.
pub open spec fn payload_text(user: Seq<char>, icon: Seq<char>, status: bool) -> Seq<char> {
    "{\"user\":\""@ + escape_seq(user) + "\",\"user_icon_url\":\""@ + escape_seq(icon)
        + "\",\"meeting_status\":"@ + bool_text(status) + "}"@
}

impl NotificationPayload {
    /// Bundle the configured user name and icon with one meeting status.
    pub fn new(user_name: String, user_icon: String, meeting_status: bool) -> (p:
        NotificationPayload)
        ensures
            p.user_name == user_name,
            p.user_icon == user_icon,
            p.meeting_status == meeting_status,
    {
        NotificationPayload { user_name, user_icon, meeting_status }
    }

    /// The JSON body of the notification POST.
    pub fn to_json(&self) -> (r: String)
        ensures
            r@ == payload_text(self.user_name@, self.user_icon@, self.meeting_status),
    {
        let mut out = String::from_str("{\"user\":\"");
        let user = json_escape(self.user_name.as_str());
        out.append(user.as_str());
        out.append("\",\"user_icon_url\":\"");
        let icon = json_escape(self.user_icon.as_str());
        out.append(icon.as_str());
        out.append("\",\"meeting_status\":");
        if self.meeting_status {
            out.append("true");
        } else {
            out.append("false");
        }
        out.append("}");
        proof {
            assert(out@ =~= payload_text(
                self.user_name@,
                self.user_icon@,
                self.meeting_status,
            ));
        }
        out
    }
}

/// A response status counts as success exactly when it is in the 2xx class.
pub fn is_success_status(status: u16) -> (r: bool)
    ensures
        r == (200 <= status < 300),
{
    200 <= status && status < 300
}

} // verus!
