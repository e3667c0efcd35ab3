//! What the receiver of an encoded text reads from it.
use vstd::prelude::*;

verus! {

/// The value of a hexadecimal digit.
pub open spec fn digit_value(digit: char) -> int {
    if '0' <= digit <= '9' {
        digit as int - '0' as int
    } else {
        digit as int - 'A' as int + 10
    }
}

/// The bytes that a part of a form stands for: a percent sign and two digits for one byte, a plus
/// sign for a space, and any other character for itself.
pub open spec fn read_bytes(text: Seq<char>) -> Seq<u8>
    decreases text.len(),
{
    if text.len() == 0 {
        Seq::empty()
    } else if text[0] == '%' && text.len() >= 3 {
        seq![(16 * digit_value(text[1]) + digit_value(text[2])) as u8] + read_bytes(text.skip(3))
    } else if text[0] == '+' {
        seq![' ' as u8] + read_bytes(text.skip(1))
    } else {
        seq![text[0] as u8] + read_bytes(text.skip(1))
    }
}

/// What stands in front of the first occurrence of a mark, and what stands behind it; nothing
/// stands behind a mark that does not occur.
pub open spec fn cut(text: Seq<char>, mark: char) -> (Seq<char>, Option<Seq<char>>)
    decreases text.len(),
{
    if text.len() == 0 {
        (Seq::empty(), None)
    } else if text[0] == mark {
        (Seq::empty(), Some(text.skip(1)))
    } else {
        let (front, back) = cut(text.skip(1), mark);
        (seq![text[0]] + front, back)
    }
}

/// The pair that a part of a form stands for; a part without an equals sign has an empty value.
pub open spec fn read_pair(text: Seq<char>) -> (Seq<char>, Seq<char>) {
    let (name, value) = cut(text, '=');
    (
        vstd::utf8::decode_utf8(read_bytes(name)),
        match value {
            Some(value) => vstd::utf8::decode_utf8(read_bytes(value)),
            None => Seq::empty(),
        },
    )
}

/// The pairs that a form stands for, in their order.
pub open spec fn read_form(text: Seq<char>) -> Seq<(Seq<char>, Seq<char>)>
    decreases text.len(),
    via read_form_shrinks
{
    if text.len() == 0 {
        Seq::empty()
    } else {
        let (first, rest) = cut(text, '&');
        match rest {
            Some(rest) => seq![read_pair(first)] + read_form(rest),
            None => seq![read_pair(first)],
        }
    }
}

#[via_fn]
proof fn read_form_shrinks(text: Seq<char>) {
    lemma_cut_shrinks(text, '&');
}

proof fn lemma_cut_shrinks(text: Seq<char>, mark: char)
    ensures
        cut(text, mark).1 matches Some(back) ==> back.len() < text.len(),
    decreases text.len(),
{
    if text.len() > 0 && text[0] != mark {
        lemma_cut_shrinks(text.skip(1), mark);
    }
}

proof fn lemma_cut_without_mark(text: Seq<char>, mark: char)
    requires
        !text.contains(mark),
    ensures
        cut(text, mark) == (text, None::<Seq<char>>),
    decreases text.len(),
{
    if text.len() > 0 {
        assert(text.contains(text[0]));
        let rest = text.skip(1);
        assert(!rest.contains(mark)) by {
            if rest.contains(mark) {
                let k = choose|k: int| 0 <= k < rest.len() && rest[k] == mark;
                assert(text[k + 1] == mark);
            }
        }
        lemma_cut_without_mark(rest, mark);
        assert(seq![text[0]] + rest =~= text);
    } else {
        assert(text =~= Seq::empty());
    }
}

proof fn lemma_cut_at_mark(front: Seq<char>, mark: char, back: Seq<char>)
    requires
        !front.contains(mark),
    ensures
        cut(front + seq![mark] + back, mark) == (front, Some(back)),
    decreases front.len(),
{
    let text = front + seq![mark] + back;
    if front.len() > 0 {
        assert(front.contains(front[0]));
        assert(text[0] == front[0]);
        let rest = front.skip(1);
        assert(!rest.contains(mark)) by {
            if rest.contains(mark) {
                let k = choose|k: int| 0 <= k < rest.len() && rest[k] == mark;
                assert(front[k + 1] == mark);
            }
        }
        lemma_cut_at_mark(rest, mark, back);
        assert(text.skip(1) =~= rest + seq![mark] + back);
        assert(seq![front[0]] + rest =~= front);
    } else {
        assert(text[0] == mark);
        assert(text.skip(1) =~= back);
        assert(front =~= Seq::empty());
    }
}

/// No byte is written with one of the two marks that structure a form.
proof fn lemma_bytes_text_has_no_marks(bytes: Seq<u8>)
    ensures
        !crate::codec::bytes_text(bytes).contains('='),
        !crate::codec::bytes_text(bytes).contains('&'),
    decreases bytes.len(),
{
    if bytes.len() > 0 {
        lemma_bytes_text_has_no_marks(bytes.skip(1));
        let first = crate::codec::byte_text(bytes[0]);
        let rest = crate::codec::bytes_text(bytes.skip(1));
        assert forall|k: int| 0 <= k < (first + rest).len() implies (#[trigger] (first + rest)[k])
            != '=' && (first + rest)[k] != '&' by {
            if k >= first.len() {
                assert((first + rest)[k] == rest[k - first.len()]);
                assert(rest.contains(rest[k - first.len()]));
            }
        }
    }
}

/// The bytes of a part of a form are read back as they were written.
pub proof fn law_bytes_read_back(bytes: Seq<u8>)
    ensures
        read_bytes(crate::codec::bytes_text(bytes)) == bytes,
    decreases bytes.len(),
{
    if bytes.len() > 0 {
        let byte = bytes[0];
        let first = crate::codec::byte_text(byte);
        let rest = crate::codec::bytes_text(bytes.skip(1));
        law_bytes_read_back(bytes.skip(1));
        let text = first + rest;
        assert(text.skip(first.len() as int) =~= rest);
        assert(text[0] == first[0]);
        if !crate::codec::stands_for_itself(byte) && byte != ' ' as u8 {
            assert(text[1] == first[1] && text[2] == first[2]);
            assert(digit_value(crate::codec::hex_digit(byte / 16)) == byte / 16);
            assert(digit_value(crate::codec::hex_digit(byte % 16)) == byte % 16);
        }
        assert(seq![byte] + bytes.skip(1) =~= bytes);
    } else {
        assert(bytes =~= Seq::empty());
    }
}

proof fn lemma_pair_reads_back(pair: (Seq<char>, Seq<char>))
    ensures
        read_pair(crate::codec::pair_text(pair)) == pair,
        !crate::codec::pair_text(pair).contains('&'),
        crate::codec::pair_text(pair).len() > 0,
{
    let name = vstd::utf8::encode_utf8(pair.0);
    let value = vstd::utf8::encode_utf8(pair.1);
    let front = crate::codec::bytes_text(name);
    let back = crate::codec::bytes_text(value);
    lemma_bytes_text_has_no_marks(name);
    lemma_bytes_text_has_no_marks(value);
    lemma_cut_at_mark(front, '=', back);
    law_bytes_read_back(name);
    law_bytes_read_back(value);
    vstd::utf8::encode_utf8_decode_utf8(pair.0);
    vstd::utf8::encode_utf8_decode_utf8(pair.1);
    let text = crate::codec::pair_text(pair);
    assert forall|k: int| 0 <= k < text.len() implies #[trigger] text[k] != '&' by {
        if k < front.len() {
            assert(front.contains(front[k]));
        } else if k > front.len() {
            assert(back.contains(back[k - front.len() - 1]));
        }
    }
}

/// A form is read back as it was written: every name and every value arrives unaltered, and in
/// order.
pub proof fn law_form_reads_back(pairs: Seq<(Seq<char>, Seq<char>)>)
    ensures
        read_form(crate::codec::form_text(pairs)) == pairs,
    decreases pairs.len(),
{
    if pairs.len() == 0 {
        assert(pairs =~= Seq::empty());
    } else {
        let first = crate::codec::pair_text(pairs[0]);
        lemma_pair_reads_back(pairs[0]);
        if pairs.len() == 1 {
            lemma_cut_without_mark(first, '&');
            assert(seq![pairs[0]] =~= pairs);
        } else {
            let rest = crate::codec::form_text(pairs.skip(1));
            lemma_cut_at_mark(first, '&', rest);
            law_form_reads_back(pairs.skip(1));
            assert(seq![pairs[0]] + pairs.skip(1) =~= pairs);
        }
    }
}

/// Whoever reads the body of a request for fresh tokens as a form finds exactly the two fields,
/// with the refresh token unaltered, whatever characters it holds.
pub proof fn law_refresh_token_arrives_unaltered(
    client_id: Seq<char>,
    client_secret: Seq<char>,
    refresh_token: Seq<char>,
)
    ensures
        ({
            let request = crate::refresh::refresh_request_view(
                client_id,
                client_secret,
                refresh_token,
            );
            request.body matches Some(body) && read_form(body) == seq![
                ("grant_type"@, "refresh_token"@),
                ("refresh_token"@, refresh_token),
            ]
        }),
{
    law_form_reads_back(crate::codec::refresh_form_view(refresh_token));
}

/// The value of a base64 digit.
pub open spec fn base64_value(digit: char) -> int {
    if 'A' <= digit <= 'Z' {
        digit as int - 'A' as int
    } else if 'a' <= digit <= 'z' {
        digit as int - 'a' as int + 26
    } else if '0' <= digit <= '9' {
        digit as int - '0' as int + 52
    } else if digit == '+' {
        62
    } else {
        63
    }
}

/// The bytes that a padded base64 text stands for: up to three for each four characters.
pub open spec fn read_base64(text: Seq<char>) -> Seq<u8>
    decreases text.len(),
{
    if text.len() < 4 {
        Seq::empty()
    } else {
        let (a, b) = (base64_value(text[0]), base64_value(text[1]));
        let (c, d) = (base64_value(text[2]), base64_value(text[3]));
        let first = (a * 4 + b / 16) as u8;
        let second = (b % 16 * 16 + c / 4) as u8;
        let third = (c % 4 * 64 + d) as u8;
        if text[2] == '=' {
            seq![first]
        } else if text[3] == '=' {
            seq![first, second]
        } else {
            seq![first, second, third] + read_base64(text.skip(4))
        }
    }
}

proof fn lemma_base64_digit_reads_back(value: int)
    requires
        0 <= value < 64,
    ensures
        base64_value(crate::codec::base64_digit(value)) == value,
        crate::codec::base64_digit(value) != '=',
{
}

/// Bytes are read back from their base64 text as they were.
pub proof fn law_base64_reads_back(bytes: Seq<u8>)
    ensures
        read_base64(crate::codec::base64_text(bytes)) == bytes,
    decreases bytes.len(),
{
    let text = crate::codec::base64_text(bytes);
    if bytes.len() == 0 {
        assert(bytes =~= Seq::empty());
    } else {
        let x = bytes[0] as int;
        lemma_base64_digit_reads_back(x / 4);
        if bytes.len() == 1 {
            lemma_base64_digit_reads_back(x % 4 * 16);
            assert(seq![bytes[0]] =~= bytes);
        } else {
            let y = bytes[1] as int;
            lemma_base64_digit_reads_back(x % 4 * 16 + y / 16);
            if bytes.len() == 2 {
                lemma_base64_digit_reads_back(y % 16 * 4);
                assert(seq![bytes[0], bytes[1]] =~= bytes);
            } else {
                let z = bytes[2] as int;
                lemma_base64_digit_reads_back(y % 16 * 4 + z / 64);
                lemma_base64_digit_reads_back(z % 64);
                law_base64_reads_back(bytes.skip(3));
                assert(text.skip(4) =~= crate::codec::base64_text(bytes.skip(3)));
                assert(seq![bytes[0], bytes[1], bytes[2]] + bytes.skip(3) =~= bytes);
            }
        }
    }
}

/// Whoever reads the `Authorization` header of a request for fresh tokens finds the worker's key
/// and secret, joined by a colon.
pub proof fn law_credentials_arrive_unaltered(client_id: Seq<char>, client_secret: Seq<char>)
    ensures
        ({
            let value = crate::codec::basic_authorization_view(client_id, client_secret);
            &&& "Basic "@.is_prefix_of(value)
            &&& vstd::utf8::decode_utf8(read_base64(value.skip("Basic "@.len() as int)))
                == client_id + ":"@ + client_secret
        }),
{
    let credentials = client_id + ":"@ + client_secret;
    let bytes = vstd::utf8::encode_utf8(credentials);
    let value = crate::codec::basic_authorization_view(client_id, client_secret);
    assert(value.subrange(0, "Basic "@.len() as int) =~= "Basic "@);
    assert(value.skip("Basic "@.len() as int) =~= crate::codec::base64_text(bytes));
    law_base64_reads_back(bytes);
    vstd::utf8::encode_utf8_decode_utf8(credentials);
}

} // verus!
