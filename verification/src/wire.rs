//! The broker wire format.
//!
//! A published message body is the JSON object
//! `{"notification":{...},"users":[...]}`, built here byte by byte and
//! proved equal to its specification. Text is carried as its UTF-8 bytes;
//! the JSON string escaping (quote, backslash, control characters) is the
//! standard one.

use vstd::prelude::*;
use vstd::utf8::encode_utf8;

use crate::notification::Notification;
use crate::notification::NotificationTask;
use crate::notification::NotificationView;
use crate::notification::TaskView;

verus! {

/// The ASCII digit for a value below ten.
pub open spec fn spec_ascii_digit(d: nat) -> u8
    recommends
        d < 10,
{
    (0x30 + d) as u8
}

/// The lowercase ASCII hexadecimal digit for a value below sixteen.
pub open spec fn spec_hex_digit(d: nat) -> u8
    recommends
        d < 16,
{
    if d < 10 {
        (0x30 + d) as u8
    } else {
        (0x57 + d) as u8
    }
}

/// JSON escape of one byte of UTF-8 text: quote and backslash take a
/// backslash escape, the named control characters take their short escapes,
/// the remaining control bytes take a `\u00..` escape, and every other byte
/// stands for itself.
pub open spec fn spec_escape_byte(b: u8) -> Seq<u8> {
    if b == 0x22 {  // "
        seq![0x5cu8, 0x22u8]
    } else if b == 0x5c {  // backslash
        seq![0x5cu8, 0x5cu8]
    } else if b == 0x08 {
        seq![0x5cu8, 0x62u8]  // \b
    } else if b == 0x09 {
        seq![0x5cu8, 0x74u8]  // \t
    } else if b == 0x0a {
        seq![0x5cu8, 0x6eu8]  // \n
    } else if b == 0x0c {
        seq![0x5cu8, 0x66u8]  // \f
    } else if b == 0x0d {
        seq![0x5cu8, 0x72u8]  // \r
    } else if b < 0x20 {
        seq![
            0x5cu8,
            0x75u8,
            0x30u8,
            0x30u8,
            spec_hex_digit((b / 16) as nat),
            spec_hex_digit((b % 16) as nat),
        ]
    } else {
        seq![b]
    }
}

/// JSON escape of a byte sequence of UTF-8 text.
pub open spec fn spec_escape(s: Seq<u8>) -> Seq<u8>
    decreases s.len(),
{
    if s.len() == 0 {
        Seq::empty()
    } else {
        spec_escape_byte(s.first()) + spec_escape(s.drop_first())
    }
}

/// The JSON string token for a text: its escaped UTF-8 bytes between quotes.
pub open spec fn spec_json_string(s: Seq<char>) -> Seq<u8> {
    seq![0x22u8] + spec_escape(encode_utf8(s)) + seq![0x22u8]
}

/// The JSON token for an optional text: a string token, or `null`.
pub open spec fn spec_json_opt_string(s: Option<Seq<char>>) -> Seq<u8> {
    match s {
        Some(t) => spec_json_string(t),
        None => encode_utf8("null"@),
    }
}

/// The decimal digits of a number, most significant first.
pub open spec fn spec_decimal(n: nat) -> Seq<u8>
    decreases n,
{
    if n < 10 {
        seq![spec_ascii_digit(n)]
    } else {
        spec_decimal(n / 10) + seq![spec_ascii_digit(n % 10)]
    }
}

/// The comma-separated JSON string tokens of the recipients after the first.
pub open spec fn spec_users_rest(users: Seq<Seq<char>>) -> Seq<u8>
    decreases users.len(),
{
    if users.len() == 0 {
        Seq::empty()
    } else {
        encode_utf8(","@) + spec_json_string(users.first()) + spec_users_rest(users.drop_first())
    }
}

/// The contents of the `users` JSON array: the recipient identities as
/// comma-separated string tokens, in order.
pub open spec fn spec_users_array(users: Seq<Seq<char>>) -> Seq<u8> {
    if users.len() == 0 {
        Seq::empty()
    } else {
        spec_json_string(users.first()) + spec_users_rest(users.drop_first())
    }
}

/// A labelled text field on the wire: the label's bytes, then the value as
/// a JSON string token.
pub open spec fn spec_field(label: Seq<char>, v: Seq<char>) -> Seq<u8> {
    encode_utf8(label) + spec_json_string(v)
}

/// A labelled optional text field on the wire.
pub open spec fn spec_opt_field(label: Seq<char>, v: Option<Seq<char>>) -> Seq<u8> {
    encode_utf8(label) + spec_json_opt_string(v)
}

/// A labelled number field on the wire.
pub open spec fn spec_num_field(label: Seq<char>, n: u64) -> Seq<u8> {
    encode_utf8(label) + spec_decimal(n as nat)
}

/// The notification object on the wire: every payload field under its name,
/// in declaration order, optional fields as `null` when absent.
pub open spec fn spec_notification_json(n: NotificationView) -> Seq<u8> {
    spec_field("{\"author\":"@, n.author) + spec_field(",\"icon\":"@, n.icon) + spec_opt_field(
        ",\"image\":"@,
        n.image,
    ) + spec_field(",\"body\":"@, n.body) + spec_field(",\"tag\":"@, n.tag) + spec_num_field(
        ",\"timestamp\":"@,
        n.timestamp,
    ) + spec_opt_field(",\"url\":"@, n.url) + spec_opt_field(",\"message\":"@, n.message)
        + spec_opt_field(",\"channel\":"@, n.channel) + encode_utf8("}"@)
}

/// The full message body handed to the broker for one task.
pub open spec fn spec_wire_body(t: TaskView) -> Seq<u8> {
    encode_utf8("{\"notification\":"@) + spec_notification_json(t.payload) + encode_utf8(
        ",\"users\":["@,
    ) + spec_users_array(t.recipients) + encode_utf8("]}"@)
}

/// Escaping distributes over concatenation.
pub proof fn lemma_escape_concat(a: Seq<u8>, b: Seq<u8>)
    ensures
        spec_escape(a + b) == spec_escape(a) + spec_escape(b),
    decreases a.len(),
{
    if a.len() == 0 {
        assert(a + b =~= b);
        assert(spec_escape(a) + spec_escape(b) =~= spec_escape(b));
    } else {
        assert((a + b).drop_first() =~= a.drop_first() + b);
        lemma_escape_concat(a.drop_first(), b);
        assert(spec_escape(a + b) =~= spec_escape(a) + spec_escape(b));
    }
}

/// The lowercase ASCII hexadecimal digit for a value below sixteen.
pub fn hex_digit(d: u8) -> (r: u8)
    requires
        d < 16,
    ensures
        r == spec_hex_digit(d as nat),
{
    if d < 10 {
        0x30 + d
    } else {
        0x57 + d
    }
}

/// The ASCII digit for a value below ten.
pub fn ascii_digit(d: u8) -> (r: u8)
    requires
        d < 10,
    ensures
        r == spec_ascii_digit(d as nat),
{
    0x30 + d
}

/// Appends a byte slice.
fn push_bytes(out: &mut Vec<u8>, s: &[u8])
    ensures
        final(out)@ == old(out)@ + s@,
{
    proof {
        assert(out@ =~= old(out)@ + s@.take(0));
    }
    let mut i: usize = 0;
    while i < s.len()
        invariant
            i <= s@.len(),
            out@ == old(out)@ + s@.take(i as int),
        decreases s@.len() - i,
    {
        let b: u8 = s[i];
        out.push(b);
        proof {
            assert(s@.take(i as int + 1) =~= s@.take(i as int).push(s@[i as int]));
        }
        i = i + 1;
    }
    proof {
        assert(s@.take(s@.len() as int) =~= s@);
    }
}

/// Appends the UTF-8 bytes of a text.
fn push_text(out: &mut Vec<u8>, s: &str)
    ensures
        final(out)@ == old(out)@ + encode_utf8(s@),
{
    push_bytes(out, s.as_bytes());
}

/// Appends the JSON escape of a byte slice of UTF-8 text.
fn push_escaped(out: &mut Vec<u8>, s: &[u8])
    ensures
        final(out)@ == old(out)@ + spec_escape(s@),
{
    proof {
        assert(out@ =~= old(out)@ + spec_escape(s@.take(0)));
    }
    let mut i: usize = 0;
    while i < s.len()
        invariant
            i <= s@.len(),
            out@ == old(out)@ + spec_escape(s@.take(i as int)),
        decreases s@.len() - i,
    {
        let b: u8 = s[i];
        if b == 0x22 {
            out.push(0x5c);
            out.push(0x22);
        } else if b == 0x5c {
            out.push(0x5c);
            out.push(0x5c);
        } else if b == 0x08 {
            out.push(0x5c);
            out.push(0x62);
        } else if b == 0x09 {
            out.push(0x5c);
            out.push(0x74);
        } else if b == 0x0a {
            out.push(0x5c);
            out.push(0x6e);
        } else if b == 0x0c {
            out.push(0x5c);
            out.push(0x66);
        } else if b == 0x0d {
            out.push(0x5c);
            out.push(0x72);
        } else if b < 0x20 {
            out.push(0x5c);
            out.push(0x75);
            out.push(0x30);
            out.push(0x30);
            out.push(hex_digit(b / 16));
            out.push(hex_digit(b % 16));
        } else {
            out.push(b);
        }
        proof {
            assert(s@.take(i as int + 1) =~= s@.take(i as int) + seq![s@[i as int]]);
            lemma_escape_concat(s@.take(i as int), seq![s@[i as int]]);
            assert(spec_escape(Seq::<u8>::empty()) == Seq::<u8>::empty());
            assert(seq![s@[i as int]].drop_first() =~= Seq::<u8>::empty());
            assert(spec_escape(seq![s@[i as int]]) =~= spec_escape_byte(s@[i as int]));
            assert(out@ =~= old(out)@ + spec_escape(s@.take(i as int + 1)));
        }
        i = i + 1;
    }
    proof {
        assert(s@.take(s@.len() as int) =~= s@);
    }
}

/// Appends the JSON string token for a text.
fn push_json_string(out: &mut Vec<u8>, s: &str)
    ensures
        final(out)@ == old(out)@ + spec_json_string(s@),
{
    out.push(0x22);
    push_escaped(out, s.as_bytes());
    out.push(0x22);
    proof {
        assert(out@ =~= old(out)@ + spec_json_string(s@));
    }
}

/// Appends the JSON token for an optional text.
fn push_opt_json_string(out: &mut Vec<u8>, s: &Option<String>)
    ensures
        final(out)@ == old(out)@ + spec_json_opt_string(s.deep_view()),
{
    match s {
        Some(t) => push_json_string(out, t.as_str()),
        None => push_text(out, "null"),
    }
}

/// Appends the decimal digits of a number.
fn push_decimal(out: &mut Vec<u8>, n: u64)
    ensures
        final(out)@ == old(out)@ + spec_decimal(n as nat),
    decreases n,
{
    if n < 10 {
        out.push(ascii_digit(n as u8));
        proof {
            assert(out@ =~= old(out)@ + spec_decimal(n as nat));
        }
    } else {
        push_decimal(out, n / 10);
        out.push(ascii_digit((n % 10) as u8));
        proof {
            assert(out@ =~= old(out)@ + spec_decimal(n as nat));
        }
    }
}

/// Appends the contents of the `users` JSON array.
fn push_users(out: &mut Vec<u8>, users: &Vec<String>)
    ensures
        final(out)@ == old(out)@ + spec_users_array(users.deep_view()),
{
    if users.len() == 0 {
        return ;
    }
    push_json_string(out, users[0].as_str());
    let mut i: usize = 1;
    while i < users.len()
        invariant
            1 <= i <= users@.len(),
            users.deep_view().len() == users@.len(),
            out@ == old(out)@ + spec_json_string(users.deep_view().first()) + spec_users_rest(
                users.deep_view().subrange(1, i as int),
            ),
        decreases users@.len() - i,
    {
        push_text(out, ",");
        push_json_string(out, users[i].as_str());
        proof {
            lemma_users_rest_snoc(users.deep_view().subrange(1, i as int), users.deep_view()[i as int]);
            assert(users.deep_view().subrange(1, i as int + 1) =~= users.deep_view().subrange(
                1,
                i as int,
            ).push(users.deep_view()[i as int]));
            assert(out@ =~= old(out)@ + spec_json_string(users.deep_view().first())
                + spec_users_rest(users.deep_view().subrange(1, i as int + 1)));
        }
        i = i + 1;
    }
    proof {
        assert(users.deep_view().subrange(1, users@.len() as int) =~= users.deep_view()
            .drop_first());
        assert(out@ =~= old(out)@ + spec_users_array(users.deep_view()));
    }
}

/// Appending one more recipient extends the comma-separated tokens by one
/// comma and one string token.
proof fn lemma_users_rest_snoc(a: Seq<Seq<char>>, x: Seq<char>)
    ensures
        spec_users_rest(a.push(x)) == spec_users_rest(a) + (encode_utf8(","@) + spec_json_string(
            x,
        )),
    decreases a.len(),
{
    if a.len() == 0 {
        assert(a.push(x).drop_first() =~= a);
        assert(spec_users_rest(a.push(x)) =~= spec_users_rest(a) + (encode_utf8(","@)
            + spec_json_string(x)));
    } else {
        assert(a.push(x).drop_first() =~= a.drop_first().push(x));
        lemma_users_rest_snoc(a.drop_first(), x);
        assert(spec_users_rest(a.push(x)) =~= spec_users_rest(a) + (encode_utf8(","@)
            + spec_json_string(x)));
    }
}

/// Appends a labelled text field.
fn push_field(out: &mut Vec<u8>, label: &str, v: &str)
    ensures
        final(out)@ == old(out)@ + spec_field(label@, v@),
{
    push_text(out, label);
    push_json_string(out, v);
    proof {
        assert(out@ =~= old(out)@ + spec_field(label@, v@));
    }
}

/// Appends a labelled optional text field.
fn push_opt_field(out: &mut Vec<u8>, label: &str, v: &Option<String>)
    ensures
        final(out)@ == old(out)@ + spec_opt_field(label@, v.deep_view()),
{
    push_text(out, label);
    push_opt_json_string(out, v);
    proof {
        assert(out@ =~= old(out)@ + spec_opt_field(label@, v.deep_view()));
    }
}

/// Appends a labelled number field.
fn push_num_field(out: &mut Vec<u8>, label: &str, n: u64)
    ensures
        final(out)@ == old(out)@ + spec_num_field(label@, n),
{
    push_text(out, label);
    push_decimal(out, n);
    proof {
        assert(out@ =~= old(out)@ + spec_num_field(label@, n));
    }
}

/// Appends the notification object.
fn push_notification(out: &mut Vec<u8>, n: &Notification)
    ensures
        final(out)@ == old(out)@ + spec_notification_json(n@),
{
    push_field(out, "{\"author\":", n.author.as_str());
    proof {
        assert(out@ =~= old(out)@ + spec_field("{\"author\":"@, n@.author));
    }
    push_field(out, ",\"icon\":", n.icon.as_str());
    proof {
        assert(out@ =~= old(out)@ + (spec_field("{\"author\":"@, n@.author) + spec_field(
            ",\"icon\":"@,
            n@.icon,
        )));
    }
    push_opt_field(out, ",\"image\":", &n.image);
    proof {
        assert(out@ =~= old(out)@ + (spec_field("{\"author\":"@, n@.author) + spec_field(
            ",\"icon\":"@,
            n@.icon,
        ) + spec_opt_field(",\"image\":"@, n@.image)));
    }
    push_field(out, ",\"body\":", n.body.as_str());
    proof {
        assert(out@ =~= old(out)@ + (spec_field("{\"author\":"@, n@.author) + spec_field(
            ",\"icon\":"@,
            n@.icon,
        ) + spec_opt_field(",\"image\":"@, n@.image) + spec_field(",\"body\":"@, n@.body)));
    }
    push_field(out, ",\"tag\":", n.tag.as_str());
    proof {
        assert(out@ =~= old(out)@ + (spec_field("{\"author\":"@, n@.author) + spec_field(
            ",\"icon\":"@,
            n@.icon,
        ) + spec_opt_field(",\"image\":"@, n@.image) + spec_field(",\"body\":"@, n@.body)
            + spec_field(",\"tag\":"@, n@.tag)));
    }
    push_num_field(out, ",\"timestamp\":", n.timestamp);
    proof {
        assert(out@ =~= old(out)@ + (spec_field("{\"author\":"@, n@.author) + spec_field(
            ",\"icon\":"@,
            n@.icon,
        ) + spec_opt_field(",\"image\":"@, n@.image) + spec_field(",\"body\":"@, n@.body)
            + spec_field(",\"tag\":"@, n@.tag) + spec_num_field(",\"timestamp\":"@, n@.timestamp)));
    }
    push_opt_field(out, ",\"url\":", &n.url);
    proof {
        assert(out@ =~= old(out)@ + (spec_field("{\"author\":"@, n@.author) + spec_field(
            ",\"icon\":"@,
            n@.icon,
        ) + spec_opt_field(",\"image\":"@, n@.image) + spec_field(",\"body\":"@, n@.body)
            + spec_field(",\"tag\":"@, n@.tag) + spec_num_field(",\"timestamp\":"@, n@.timestamp)
            + spec_opt_field(",\"url\":"@, n@.url)));
    }
    push_opt_field(out, ",\"message\":", &n.message);
    proof {
        assert(out@ =~= old(out)@ + (spec_field("{\"author\":"@, n@.author) + spec_field(
            ",\"icon\":"@,
            n@.icon,
        ) + spec_opt_field(",\"image\":"@, n@.image) + spec_field(",\"body\":"@, n@.body)
            + spec_field(",\"tag\":"@, n@.tag) + spec_num_field(",\"timestamp\":"@, n@.timestamp)
            + spec_opt_field(",\"url\":"@, n@.url) + spec_opt_field(",\"message\":"@, n@.message)));
    }
    push_opt_field(out, ",\"channel\":", &n.channel);
    proof {
        assert(out@ =~= old(out)@ + (spec_field("{\"author\":"@, n@.author) + spec_field(
            ",\"icon\":"@,
            n@.icon,
        ) + spec_opt_field(",\"image\":"@, n@.image) + spec_field(",\"body\":"@, n@.body)
            + spec_field(",\"tag\":"@, n@.tag) + spec_num_field(",\"timestamp\":"@, n@.timestamp)
            + spec_opt_field(",\"url\":"@, n@.url) + spec_opt_field(",\"message\":"@, n@.message)
            + spec_opt_field(",\"channel\":"@, n@.channel)));
    }
    push_text(out, "}");
    proof {
        assert(out@ =~= old(out)@ + spec_notification_json(n@));
    }
}

/// Builds the full message body for one task:
/// `{"notification":{...},"users":[...]}` as bytes.
pub fn encode_task(task: &NotificationTask) -> (r: Vec<u8>)
    ensures
        r@ == spec_wire_body(task@),
{
    let mut out: Vec<u8> = Vec::new();
    push_text(&mut out, "{\"notification\":");
    push_notification(&mut out, &task.payload);
    push_text(&mut out, ",\"users\":[");
    push_users(&mut out, &task.recipients);
    push_text(&mut out, "]}");
    proof {
        assert(out@ =~= spec_wire_body(task@));
    }
    out
}

} // verus!
