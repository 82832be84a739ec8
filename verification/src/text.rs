//! Splitting long texts into messages of bounded size.
//!
//! Sizes are counted in bytes of UTF-8, as the message service counts them, so everything here
//! is stated over the encoded text.

use vstd::prelude::*;
use vstd::string::StringSliceAdditionalSpecFns;
use vstd::utf8::*;

verus! {

/// `delimiter` stands in `window` at byte `i`.
pub open spec fn occurs_at(window: Seq<u8>, delimiter: Seq<u8>, i: int) -> bool {
    &&& 0 <= i
    &&& i + delimiter.len() <= window.len()
    &&& window.subrange(i, i + delimiter.len()) == delimiter
}

/// The last occurrence of `delimiter` in `window` is at byte `i`.
pub open spec fn last_occurs_at(window: Seq<u8>, delimiter: Seq<u8>, i: int) -> bool {
    &&& occurs_at(window, delimiter, i)
    &&& forall|j: int| #[trigger] occurs_at(window, delimiter, j) ==> j <= i
}

/// Where a cut right behind the last `delimiter` of `window` falls, if that delimiter starts
/// behind byte `floor`.
pub open spec fn cut_behind(window: Seq<u8>, delimiter: Seq<u8>, floor: int) -> Option<int> {
    if exists|i: int| i > floor && #[trigger] last_occurs_at(window, delimiter, i) {
        Some(
            (choose|i: int| i > floor && #[trigger] last_occurs_at(window, delimiter, i))
                + delimiter.len(),
        )
    } else {
        None
    }
}

/// How many bytes of `bytes`, a text longer than `limit`, go into its first chunk: up to and
/// including the last blank line, line break or space (in this order of preference) of the
/// first `limit` bytes, if it starts behind three tenths of the limit; else all `limit` bytes.
pub open spec fn cut_point(bytes: Seq<u8>, limit: int) -> int {
    let window = bytes.take(limit);
    let floor = limit * 3 / 10;
    match cut_behind(window, "\n\n".spec_bytes(), floor) {
        Some(cut) => cut,
        None => match cut_behind(window, "\n".spec_bytes(), floor) {
            Some(cut) => cut,
            None => match cut_behind(window, " ".spec_bytes(), floor) {
                Some(cut) => cut,
                None => limit,
            },
        },
    }
}

/// The chunks of a text, each as UTF-8.
pub open spec fn chunks_of(bytes: Seq<u8>, limit: int) -> Seq<Seq<u8>>
    decreases bytes.len(),
{
    if bytes.len() <= limit || limit <= 0 {
        seq![bytes]
    } else {
        let cut = cut_point(bytes, limit);
        seq![bytes.take(cut)] + chunks_of(bytes.skip(cut), limit)
    }
}

/// Whether the text can be split at all: the limit is not zero, and no window of `limit` bytes
/// from which a chunk is cut ends inside a character.
pub open spec fn can_chunk(bytes: Seq<u8>, limit: int) -> bool
    decreases bytes.len(),
{
    bytes.len() <= limit || {
        &&& limit > 0
        &&& is_char_boundary(bytes, limit)
        &&& can_chunk(bytes.skip(cut_point(bytes, limit)), limit)
    }
}

/// The chunks of a text.
pub open spec fn text_chunks(text: Seq<char>, limit: int) -> Seq<Seq<char>> {
    chunks_of(encode_utf8(text), limit).map_values(|chunk: Seq<u8>| decode_utf8(chunk))
}

/// The characters of each of the texts.
pub open spec fn text_views(texts: Seq<String>) -> Seq<Seq<char>> {
    texts.map_values(|text: String| text@)
}

/// A chunk is never empty and never longer than the limit.
proof fn lemma_cut_point_bounds(bytes: Seq<u8>, limit: int)
    requires
        0 < limit < bytes.len(),
    ensures
        0 < cut_point(bytes, limit) <= limit,
{
}

/// The byte behind a one-byte character starts a character, or is the end of the text.
proof fn lemma_boundary_behind_ascii(bytes: Seq<u8>, i: int)
    requires
        valid_utf8(bytes),
        0 <= i < bytes.len(),
        bytes[i] < 0x80,
    ensures
        is_char_boundary(bytes, i + 1),
    decreases bytes.len(),
{
    if i == 0 {
        reveal_with_fuel(is_char_boundary, 2);
    } else {
        let width = length_of_first_scalar(bytes);
        assert(width <= i);
        lemma_boundary_behind_ascii(pop_first_scalar(bytes), i - width);
    }
}

/// A cut behind an ASCII delimiter falls between two characters.
proof fn lemma_boundary_behind_delimiter(bytes: Seq<u8>, limit: int, delimiter: Seq<char>, i: int)
    requires
        valid_utf8(bytes),
        0 <= limit <= bytes.len(),
        is_ascii_chars(delimiter),
        delimiter.len() > 0,
        occurs_at(bytes.take(limit), encode_utf8(delimiter), i),
    ensures
        is_char_boundary(bytes, i + encode_utf8(delimiter).len()),
{
    let d = encode_utf8(delimiter);
    is_ascii_chars_encode_utf8(delimiter);
    let last = d.len() - 1;
    assert(delimiter[last] as u8 == d[last]);
    assert(bytes.take(limit).subrange(i, i + d.len())[last] == d[last]);
    assert(bytes[i + last] == d[last]);
    lemma_boundary_behind_ascii(bytes, i + last);
}

/// Where the window ends between two characters, so does the chunk.
proof fn lemma_cut_point_boundary(bytes: Seq<u8>, limit: int)
    requires
        valid_utf8(bytes),
        0 < limit < bytes.len(),
        is_char_boundary(bytes, limit),
    ensures
        is_char_boundary(bytes, cut_point(bytes, limit)),
{
    reveal_strlit("\n\n");
    reveal_strlit("\n");
    reveal_strlit(" ");
    let window = bytes.take(limit);
    let floor = limit * 3 / 10;
    if cut_behind(window, "\n\n".spec_bytes(), floor) is Some {
        let i = choose|i: int| i > floor && #[trigger] last_occurs_at(window, "\n\n".spec_bytes(), i);
        lemma_boundary_behind_delimiter(bytes, limit, "\n\n"@, i);
    } else if cut_behind(window, "\n".spec_bytes(), floor) is Some {
        let i = choose|i: int| i > floor && #[trigger] last_occurs_at(window, "\n".spec_bytes(), i);
        lemma_boundary_behind_delimiter(bytes, limit, "\n"@, i);
    } else if cut_behind(window, " ".spec_bytes(), floor) is Some {
        let i = choose|i: int| i > floor && #[trigger] last_occurs_at(window, " ".spec_bytes(), i);
        lemma_boundary_behind_delimiter(bytes, limit, " "@, i);
    }
}

/// Tests whether `delimiter` stands in `bytes` at byte `i`.
fn stands_at(bytes: &[u8], delimiter: &[u8], i: usize) -> (found: bool)
    requires
        i + delimiter@.len() <= bytes@.len(),
    ensures
        found == (bytes@.subrange(i as int, i + delimiter@.len()) == delimiter@),
{
    let len: usize = bytes.len();
    let mut k: usize = 0;
    while k < delimiter.len()
        invariant
            i + delimiter@.len() <= bytes@.len() == len,
            k <= delimiter@.len(),
            forall|j: int| 0 <= j < k ==> bytes@[i + j] == delimiter@[j],
        decreases delimiter@.len() - k,
    {
        if bytes[i + k] != delimiter[k] {
            assert(bytes@.subrange(i as int, i + delimiter@.len())[k as int] != delimiter@[k as int]);
            return false;
        }
        k = k + 1;
    }
    assert(bytes@.subrange(i as int, i + delimiter@.len()) =~= delimiter@);
    true
}

/// Finds the cut behind the last `delimiter` of the first `limit` bytes, see [`cut_behind`].
fn find_cut_behind(bytes: &[u8], limit: usize, delimiter: &[u8], floor: usize) -> (cut: Option<
    usize,
>)
    requires
        limit <= bytes@.len(),
        delimiter@.len() > 0,
    ensures
        match cut {
            Some(at) => cut_behind(bytes@.take(limit as int), delimiter@, floor as int) == Some(
                at as int,
            ),
            None => cut_behind(bytes@.take(limit as int), delimiter@, floor as int) is None,
        },
{
    let ghost window = bytes@.take(limit as int);
    if delimiter.len() > limit {
        return None;
    }
    let mut next: usize = limit - delimiter.len() + 1;
    while next > 0
        invariant
            limit <= bytes@.len(),
            0 < delimiter@.len() <= limit,
            next <= limit - delimiter@.len() + 1,
            window == bytes@.take(limit as int),
            forall|j: int| next <= j ==> !#[trigger] occurs_at(window, delimiter@, j),
        decreases next,
    {
        let i: usize = next - 1;
        assert(window.subrange(i as int, i + delimiter@.len()) =~= bytes@.subrange(
            i as int,
            i + delimiter@.len(),
        ));
        if stands_at(bytes, delimiter, i) {
            assert(last_occurs_at(window, delimiter@, i as int));
            assert(forall|j: int|
                #[trigger] last_occurs_at(window, delimiter@, j) ==> j == i) by {
                assert(occurs_at(window, delimiter@, i as int));
            }
            return if i > floor {
                Some(i + delimiter.len())
            } else {
                None
            };
        }
        next = i;
    }
    None
}

/// Finds where the first chunk ends, see [`cut_point`].
fn find_cut_point(bytes: &[u8], limit: usize) -> (cut: usize)
    requires
        0 < limit < bytes@.len(),
    ensures
        cut == cut_point(bytes@, limit as int),
        0 < cut <= limit,
{
    let floor: usize = (limit / 10) * 3 + (limit % 10) * 3 / 10;
    assert(floor == limit * 3 / 10);
    proof {
        reveal_strlit("\n\n");
        reveal_strlit("\n");
        reveal_strlit(" ");
        is_ascii_chars_encode_utf8("\n\n"@);
        is_ascii_chars_encode_utf8("\n"@);
        is_ascii_chars_encode_utf8(" "@);
        lemma_cut_point_bounds(bytes@, limit as int);
    }
    if let Some(cut) = find_cut_behind(bytes, limit, "\n\n".as_bytes(), floor) {
        return cut;
    }
    if let Some(cut) = find_cut_behind(bytes, limit, "\n".as_bytes(), floor) {
        return cut;
    }
    if let Some(cut) = find_cut_behind(bytes, limit, " ".as_bytes(), floor) {
        return cut;
    }
    limit
}

/// Splits `text` into chunks of at most `limit` bytes, preferably at a blank line, a line break
/// or a space. A text within the limit, the empty one too, is its own single chunk.
pub fn chunk_text(text: &str, limit: usize) -> (chunks: Vec<String>)
    requires
        can_chunk(text.spec_bytes(), limit as int),
    ensures
        text_views(chunks@) == text_chunks(text@, limit as int),
{
    let mut chunks: Vec<String> = Vec::new();
    let mut remaining: &str = text;
    assert(text_views(chunks@) + text_chunks(remaining@, limit as int) =~= text_chunks(
        text@,
        limit as int,
    ));
    loop
        invariant
            can_chunk(remaining.spec_bytes(), limit as int),
            text_views(chunks@) + text_chunks(remaining@, limit as int) == text_chunks(
                text@,
                limit as int,
            ),
        decreases remaining.spec_bytes().len(),
    {
        broadcast use encode_utf8_decode_utf8;

        let bytes = remaining.as_bytes();
        let ghost before = text_views(chunks@);
        if bytes.len() <= limit {
            chunks.push(remaining.to_string());
            assert(text_chunks(remaining@, limit as int) =~= seq![remaining@]);
            assert(text_views(chunks@) =~= before + seq![remaining@]);
            return chunks;
        }
        let cut = find_cut_point(bytes, limit);
        proof {
            encode_utf8_valid_utf8(remaining@);
            lemma_cut_point_boundary(bytes@, limit as int);
        }
        let (chunk, rest) = remaining.split_at(cut);
        chunks.push(chunk.to_string());
        assert(chunk.spec_bytes() =~= bytes@.take(cut as int));
        assert(rest.spec_bytes() =~= bytes@.skip(cut as int));
        assert(text_chunks(remaining@, limit as int) =~= seq![chunk@] + text_chunks(
            rest@,
            limit as int,
        ));
        assert(text_views(chunks@) + text_chunks(rest@, limit as int) =~= before + text_chunks(
            remaining@,
            limit as int,
        ));
        remaining = rest;
    }
}

/// Tests whether [`chunk_text`] can split `text`.
pub fn can_chunk_text(text: &str, limit: usize) -> (yes: bool)
    ensures
        yes == can_chunk(text.spec_bytes(), limit as int),
{
    let mut remaining: &str = text;
    loop
        invariant
            can_chunk(remaining.spec_bytes(), limit as int) == can_chunk(
                text.spec_bytes(),
                limit as int,
            ),
        decreases remaining.spec_bytes().len(),
    {
        let bytes = remaining.as_bytes();
        if bytes.len() <= limit {
            return true;
        }
        if limit == 0 || !remaining.is_char_boundary(limit) {
            return false;
        }
        let cut = find_cut_point(bytes, limit);
        proof {
            encode_utf8_valid_utf8(remaining@);
            lemma_cut_point_boundary(bytes@, limit as int);
        }
        let (_chunk, rest) = remaining.split_at(cut);
        assert(rest.spec_bytes() =~= bytes@.skip(cut as int));
        remaining = rest;
    }
}

proof fn lemma_encode_concat(a: Seq<char>, b: Seq<char>)
    ensures
        encode_utf8(a + b) == encode_utf8(a) + encode_utf8(b),
    decreases a.len(),
{
    if a.len() == 0 {
        assert(a + b =~= b);
        assert(encode_utf8(a) + encode_utf8(b) =~= encode_utf8(b));
    } else {
        assert((a + b).drop_first() =~= a.drop_first() + b);
        lemma_encode_concat(a.drop_first(), b);
    }
}

proof fn lemma_encode_flatten(texts: Seq<Seq<char>>)
    ensures
        encode_utf8(texts.flatten()) == texts.map_values(|t: Seq<char>| encode_utf8(t)).flatten(),
    decreases texts.len(),
{
    let encoded = texts.map_values(|t: Seq<char>| encode_utf8(t));
    if texts.len() != 0 {
        assert(encoded.drop_first() =~= texts.drop_first().map_values(
            |t: Seq<char>| encode_utf8(t),
        ));
        lemma_encode_flatten(texts.drop_first());
        lemma_encode_concat(texts.first(), texts.drop_first().flatten());
    }
}

proof fn lemma_chunk_bytes_rejoin(bytes: Seq<u8>, limit: int)
    ensures
        chunks_of(bytes, limit).flatten() == bytes,
    decreases bytes.len(),
{
    let chunks = chunks_of(bytes, limit);
    if bytes.len() <= limit || limit <= 0 {
        chunks.lemma_flatten_one_element();
    } else {
        let cut = cut_point(bytes, limit);
        lemma_cut_point_bounds(bytes, limit);
        lemma_chunk_bytes_rejoin(bytes.skip(cut), limit);
        assert(chunks.drop_first() =~= chunks_of(bytes.skip(cut), limit));
        assert(bytes.take(cut) + bytes.skip(cut) =~= bytes);
    }
}

proof fn lemma_chunks_are_texts(bytes: Seq<u8>, limit: int)
    requires
        valid_utf8(bytes),
        can_chunk(bytes, limit),
    ensures
        forall|i: int|
            0 <= i < chunks_of(bytes, limit).len() ==> valid_utf8(
                #[trigger] chunks_of(bytes, limit)[i],
            ),
    decreases bytes.len(),
{
    if bytes.len() > limit {
        let cut = cut_point(bytes, limit);
        lemma_cut_point_bounds(bytes, limit);
        lemma_cut_point_boundary(bytes, limit);
        valid_utf8_split(bytes, cut);
        assert(bytes.take(cut) =~= bytes.subrange(0, cut));
        assert(bytes.skip(cut) =~= bytes.subrange(cut, bytes.len() as int));
        let rest = chunks_of(bytes.skip(cut), limit);
        lemma_chunks_are_texts(bytes.skip(cut), limit);
        assert forall|i: int| 0 <= i < chunks_of(bytes, limit).len() implies valid_utf8(
            #[trigger] chunks_of(bytes, limit)[i],
        ) by {
            if i > 0 {
                assert(chunks_of(bytes, limit)[i] == rest[i - 1]);
            }
        }
    }
}

/// The UTF-8 of a chunk is the part of the text's UTF-8 that was cut out for it.
proof fn lemma_chunk_encoding(text: Seq<char>, limit: int)
    requires
        can_chunk(encode_utf8(text), limit),
    ensures
        text_chunks(text, limit).map_values(|t: Seq<char>| encode_utf8(t)) == chunks_of(
            encode_utf8(text),
            limit,
        ),
{
    encode_utf8_valid_utf8(text);
    let chunks = chunks_of(encode_utf8(text), limit);
    lemma_chunks_are_texts(encode_utf8(text), limit);
    assert forall|i: int| 0 <= i < chunks.len() implies encode_utf8(
        #[trigger] decode_utf8(chunks[i]),
    ) == chunks[i] by {
        decode_utf8_encode_utf8(chunks[i]);
    }
    assert(text_chunks(text, limit).map_values(|t: Seq<char>| encode_utf8(t)) =~= chunks);
}

/// Splitting loses nothing: the chunks of a text, joined again in order, are the text.
pub proof fn law_chunks_rejoin(text: Seq<char>, limit: int)
    requires
        can_chunk(encode_utf8(text), limit),
    ensures
        text_chunks(text, limit).flatten() == text,
{
    let chunks = text_chunks(text, limit);
    lemma_chunk_encoding(text, limit);
    lemma_encode_flatten(chunks);
    lemma_chunk_bytes_rejoin(encode_utf8(text), limit);
    encode_utf8_decode_utf8(chunks.flatten());
    encode_utf8_decode_utf8(text);
}

proof fn lemma_chunk_sizes(bytes: Seq<u8>, limit: int)
    requires
        limit > 0,
    ensures
        chunks_of(bytes, limit).len() > 0,
        forall|i: int|
            0 <= i < chunks_of(bytes, limit).len() ==> {
                let chunk = #[trigger] chunks_of(bytes, limit)[i];
                chunk.len() <= limit && (chunk.len() > 0 || bytes.len() == 0)
            },
    decreases bytes.len(),
{
    if bytes.len() > limit {
        let cut = cut_point(bytes, limit);
        lemma_cut_point_bounds(bytes, limit);
        lemma_chunk_sizes(bytes.skip(cut), limit);
        let rest = chunks_of(bytes.skip(cut), limit);
        assert forall|i: int| 0 <= i < chunks_of(bytes, limit).len() implies {
            let chunk = #[trigger] chunks_of(bytes, limit)[i];
            chunk.len() <= limit && chunk.len() > 0
        } by {
            if i > 0 {
                assert(chunks_of(bytes, limit)[i] == rest[i - 1]);
            }
        }
    }
}

/// There is at least one chunk; none is longer than the limit, and none is empty unless the
/// text is.
pub proof fn law_chunk_sizes(text: Seq<char>, limit: int)
    requires
        can_chunk(encode_utf8(text), limit),
    ensures
        text_chunks(text, limit).len() > 0,
        forall|i: int|
            0 <= i < text_chunks(text, limit).len() ==> {
                let chunk = #[trigger] text_chunks(text, limit)[i];
                encode_utf8(chunk).len() <= limit && (chunk.len() > 0 || text.len() == 0)
            },
{
    let bytes = encode_utf8(text);
    let encoded = text_chunks(text, limit).map_values(|t: Seq<char>| encode_utf8(t));
    lemma_chunk_encoding(text, limit);
    if limit > 0 {
        lemma_chunk_sizes(bytes, limit);
    }
    if text.len() > 0 {
        encode_utf8_decode_utf8(text);
        assert(bytes.len() > 0);
    }
    assert forall|i: int| 0 <= i < text_chunks(text, limit).len() implies {
        let chunk = #[trigger] text_chunks(text, limit)[i];
        encode_utf8(chunk).len() <= limit && (chunk.len() > 0 || text.len() == 0)
    } by {
        let chunk = text_chunks(text, limit)[i];
        assert(encoded[i] == encode_utf8(chunk));
        assert(chunks_of(bytes, limit)[i] == encode_utf8(chunk));
    }
}

proof fn lemma_cut_ends(bytes: Seq<u8>, limit: int)
    requires
        0 < limit < bytes.len(),
    ensures
        ({
            let chunk = bytes.take(cut_point(bytes, limit));
            chunk.len() == limit || chunk.last() == 0x0a || chunk.last() == 0x20
        }),
{
    reveal_strlit("\n\n");
    reveal_strlit("\n");
    reveal_strlit(" ");
    is_ascii_chars_encode_utf8("\n\n"@);
    is_ascii_chars_encode_utf8("\n"@);
    is_ascii_chars_encode_utf8(" "@);
    let window = bytes.take(limit);
    let floor = limit * 3 / 10;
    let cut = cut_point(bytes, limit);
    lemma_cut_point_bounds(bytes, limit);
    let d = if cut_behind(window, "\n\n".spec_bytes(), floor) is Some {
        "\n\n"@
    } else if cut_behind(window, "\n".spec_bytes(), floor) is Some {
        "\n"@
    } else {
        " "@
    };
    if cut_behind(window, encode_utf8(d), floor) is Some {
        let i = choose|i: int| i > floor && #[trigger] last_occurs_at(window, encode_utf8(d), i);
        let last = d.len() - 1;
        assert(window.subrange(i, i + d.len())[last] == encode_utf8(d)[last]);
        assert(d[last] as u8 == encode_utf8(d)[last]);
        assert(bytes.take(cut).last() == bytes[i + last]);
    }
}

proof fn lemma_chunk_breaks(bytes: Seq<u8>, limit: int)
    requires
        limit > 0,
    ensures
        forall|i: int|
            0 <= i < chunks_of(bytes, limit).len() - 1 ==> {
                let chunk = #[trigger] chunks_of(bytes, limit)[i];
                chunk.len() == limit || chunk.len() > 0 && (chunk.last() == 0x0a || chunk.last()
                    == 0x20)
            },
    decreases bytes.len(),
{
    if bytes.len() > limit {
        let cut = cut_point(bytes, limit);
        let chunks = chunks_of(bytes, limit);
        lemma_cut_point_bounds(bytes, limit);
        lemma_chunk_breaks(bytes.skip(cut), limit);
        let rest = chunks_of(bytes.skip(cut), limit);
        assert forall|i: int| 0 <= i < chunks.len() - 1 implies {
            let chunk = #[trigger] chunks_of(bytes, limit)[i];
            chunk.len() == limit || chunk.len() > 0 && (chunk.last() == 0x0a || chunk.last()
                == 0x20)
        } by {
            if i > 0 {
                assert(chunks[i] == rest[i - 1]);
            } else {
                lemma_cut_ends(bytes, limit);
            }
        }
    }
}

/// A text whose UTF-8 ends in an ASCII byte ends in that character.
proof fn lemma_last_byte_is_last_char(text: Seq<char>)
    requires
        encode_utf8(text).len() > 0,
        encode_utf8(text).last() < 0x80,
    ensures
        text.len() > 0,
        text.last() as u32 == encode_utf8(text).last(),
{
    let c = text.last() as u32;
    let last = seq![text.last()];
    assert(text =~= text.drop_last() + last);
    lemma_encode_concat(text.drop_last(), last);
    reveal_with_fuel(encode_utf8, 2);
    assert(last.drop_first() =~= seq![]);
    assert(encode_utf8(last) =~= encode_scalar(c));
    assert(last_continuation_byte(c) >= 0x80) by (bit_vector);
    if has_width_1_encoding(c) {
        assert(leading_byte_width_1(c) == c) by (bit_vector)
            requires
                has_width_1_encoding(c),
        ;
    }
    assert(encode_utf8(text).last() == encode_scalar(c).last());
}

/// Every chunk but the last ends in a line break or a space, or else fills the limit.
pub proof fn law_chunk_breaks(text: Seq<char>, limit: int)
    requires
        can_chunk(encode_utf8(text), limit),
    ensures
        forall|i: int|
            0 <= i < text_chunks(text, limit).len() - 1 ==> {
                let chunk = #[trigger] text_chunks(text, limit)[i];
                encode_utf8(chunk).len() == limit || chunk.len() > 0 && (chunk.last() == '\n'
                    || chunk.last() == ' ')
            },
{
    let bytes = encode_utf8(text);
    let encoded = text_chunks(text, limit).map_values(|t: Seq<char>| encode_utf8(t));
    lemma_chunk_encoding(text, limit);
    if limit > 0 {
        lemma_chunk_breaks(bytes, limit);
    }
    assert forall|i: int| 0 <= i < text_chunks(text, limit).len() - 1 implies {
        let chunk = #[trigger] text_chunks(text, limit)[i];
        encode_utf8(chunk).len() == limit || chunk.len() > 0 && (chunk.last() == '\n'
            || chunk.last() == ' ')
    } by {
        let chunk = text_chunks(text, limit)[i];
        assert(encoded[i] == encode_utf8(chunk));
        assert(chunks_of(bytes, limit)[i] == encode_utf8(chunk));
        if encode_utf8(chunk).len() != limit {
            lemma_last_byte_is_last_char(chunk);
            char_u32_cast(chunk.last(), chunk.last() as u32);
            char_u32_cast('\n', '\n' as u32);
            char_u32_cast(' ', ' ' as u32);
        }
    }
}

/// A text within the limit, the empty one too, is its own only chunk.
pub proof fn law_short_text_is_one_chunk(text: Seq<char>, limit: int)
    requires
        encode_utf8(text).len() <= limit,
    ensures
        can_chunk(encode_utf8(text), limit),
        text_chunks(text, limit) == seq![text],
{
    encode_utf8_decode_utf8(text);
    assert(text_chunks(text, limit) =~= seq![text]);
}

/// A text of ASCII characters can be split at every limit but zero.
pub proof fn law_ascii_can_chunk(text: Seq<char>, limit: int)
    requires
        is_ascii_chars(text),
        limit > 0,
    ensures
        can_chunk(encode_utf8(text), limit),
    decreases text.len(),
{
    let bytes = encode_utf8(text);
    is_ascii_chars_encode_utf8(text);
    if bytes.len() > limit {
        encode_utf8_valid_utf8(text);
        assert(text[limit - 1] as u8 == bytes[limit - 1]);
        lemma_boundary_behind_ascii(bytes, limit - 1);
        let cut = cut_point(bytes, limit);
        lemma_cut_point_bounds(bytes, limit);
        let rest = text.skip(cut);
        is_ascii_chars_encode_utf8(rest);
        assert forall|i: int| 0 <= i < rest.len() implies encode_utf8(rest)[i] == bytes.skip(cut)[i] by {
            assert(rest[i] as u8 == encode_utf8(rest)[i]);
            assert(text[i + cut] as u8 == bytes[i + cut]);
        }
        assert(encode_utf8(rest) =~= bytes.skip(cut));
        law_ascii_can_chunk(rest, limit);
    }
}

/// A blank line, two line breaks in a row, starts in `window` at byte `p`.
pub open spec fn blank_line_at(window: Seq<u8>, p: int) -> bool {
    0 <= p && p + 2 <= window.len() && window[p] == 0x0a && window[p + 1] == 0x0a
}

/// `byte` stands in `window` at `p`.
pub open spec fn byte_at(window: Seq<u8>, byte: u8, p: int) -> bool {
    0 <= p < window.len() && window[p] == byte
}

/// `cut` is the best place to cut a text of which `window` is as much as fits: no blank line
/// that starts behind three tenths of the window, if there is one, leaves more in front of the
/// cut; else the same of line breaks; else the same of spaces; else all of the window fits.
pub open spec fn is_best_cut(window: Seq<u8>, cut: int) -> bool {
    let floor = window.len() * 3 / 10;
    if exists|p: int| p > floor && #[trigger] blank_line_at(window, p) {
        &&& blank_line_at(window, cut - 2)
        &&& forall|p: int| #[trigger] blank_line_at(window, p) ==> p + 2 <= cut
    } else if exists|p: int| p > floor && #[trigger] byte_at(window, 0x0a, p) {
        &&& byte_at(window, 0x0a, cut - 1)
        &&& forall|p: int| #[trigger] byte_at(window, 0x0a, p) ==> p + 1 <= cut
    } else if exists|p: int| p > floor && #[trigger] byte_at(window, 0x20, p) {
        &&& byte_at(window, 0x20, cut - 1)
        &&& forall|p: int| #[trigger] byte_at(window, 0x20, p) ==> p + 1 <= cut
    } else {
        cut == window.len()
    }
}

proof fn lemma_last_occurrence(window: Seq<u8>, delimiter: Seq<u8>, p: int)
    requires
        occurs_at(window, delimiter, p),
    ensures
        exists|i: int| i >= p && #[trigger] last_occurs_at(window, delimiter, i),
    decreases window.len() - p,
{
    if exists|q: int| q > p && #[trigger] occurs_at(window, delimiter, q) {
        let q = choose|q: int| q > p && #[trigger] occurs_at(window, delimiter, q);
        lemma_last_occurrence(window, delimiter, q);
    } else {
        assert(last_occurs_at(window, delimiter, p));
    }
}

/// A cut behind a delimiter is one behind its last occurrence.
proof fn lemma_cut_is_behind_last(window: Seq<u8>, delimiter: Seq<u8>, floor: int)
    ensures
        match cut_behind(window, delimiter, floor) {
            Some(cut) => {
                &&& cut - delimiter.len() > floor
                &&& occurs_at(window, delimiter, cut - delimiter.len())
                &&& forall|p: int|
                    #[trigger] occurs_at(window, delimiter, p) ==> p + delimiter.len() <= cut
            },
            None => forall|p: int| p > floor ==> !#[trigger] occurs_at(window, delimiter, p),
        },
{
    if cut_behind(window, delimiter, floor) is None {
        assert forall|p: int| p > floor implies !#[trigger] occurs_at(window, delimiter, p) by {
            if occurs_at(window, delimiter, p) {
                lemma_last_occurrence(window, delimiter, p);
            }
        }
    }
}

proof fn lemma_cut_point_is_best(bytes: Seq<u8>, limit: int)
    requires
        0 < limit < bytes.len(),
    ensures
        is_best_cut(bytes.take(limit), cut_point(bytes, limit)),
{
    let window = bytes.take(limit);
    let floor = limit * 3 / 10;
    let blank = "\n\n".spec_bytes();
    let line = "\n".spec_bytes();
    let space = " ".spec_bytes();
    reveal_strlit("\n\n");
    reveal_strlit("\n");
    reveal_strlit(" ");
    is_ascii_chars_encode_utf8("\n\n"@);
    is_ascii_chars_encode_utf8("\n"@);
    is_ascii_chars_encode_utf8(" "@);
    assert("\n\n"@[0] as u8 == blank[0] && "\n\n"@[1] as u8 == blank[1]);
    assert("\n"@[0] as u8 == line[0]);
    assert(" "@[0] as u8 == space[0]);
    assert(blank =~= seq![0x0au8, 0x0au8]);
    assert(line =~= seq![0x0au8]);
    assert(space =~= seq![0x20u8]);
    assert forall|p: int|
        #![trigger occurs_at(window, blank, p)]
        #![trigger blank_line_at(window, p)]
        occurs_at(window, blank, p) == blank_line_at(window, p) by {
        if 0 <= p && p + 2 <= window.len() {
            let part = window.subrange(p, p + 2);
            assert(part[0] == window[p] && part[1] == window[p + 1]);
            if blank_line_at(window, p) {
                assert(part =~= blank);
            }
        }
    }
    assert forall|p: int|
        #![trigger occurs_at(window, line, p)]
        #![trigger byte_at(window, 0x0a, p)]
        occurs_at(window, line, p) == byte_at(window, 0x0a, p) by {
        if 0 <= p < window.len() {
            let part = window.subrange(p, p + 1);
            assert(part[0] == window[p]);
            if byte_at(window, 0x0a, p) {
                assert(part =~= line);
            }
        }
    }
    assert forall|p: int|
        #![trigger occurs_at(window, space, p)]
        #![trigger byte_at(window, 0x20, p)]
        occurs_at(window, space, p) == byte_at(window, 0x20, p) by {
        if 0 <= p < window.len() {
            let part = window.subrange(p, p + 1);
            assert(part[0] == window[p]);
            if byte_at(window, 0x20, p) {
                assert(part =~= space);
            }
        }
    }
    lemma_cut_is_behind_last(window, blank, floor);
    lemma_cut_is_behind_last(window, line, floor);
    lemma_cut_is_behind_last(window, space, floor);
    let cut = cut_point(bytes, limit);
    if cut_behind(window, blank, floor) is Some {
        assert(blank_line_at(window, cut - 2));
    } else if cut_behind(window, line, floor) is Some {
        assert(byte_at(window, 0x0a, cut - 1));
    } else if cut_behind(window, space, floor) is Some {
        assert(byte_at(window, 0x20, cut - 1));
    }
}

/// Of any bytes, each chunk but the last is cut off at the best place in as much as fits of what
/// is left.
pub proof fn law_byte_chunks_end_at_the_best_cut(bytes: Seq<u8>, limit: int, i: int)
    requires
        0 < limit,
        0 <= i < chunks_of(bytes, limit).len() - 1,
    ensures
        ({
            let rest = chunks_of(bytes, limit).skip(i).flatten();
            &&& rest.len() > limit
            &&& is_best_cut(rest.take(limit), chunks_of(bytes, limit)[i].len() as int)
        }),
    decreases bytes.len(),
{
    let chunks = chunks_of(bytes, limit);
    let cut = cut_point(bytes, limit);
    lemma_cut_point_bounds(bytes, limit);
    if i == 0 {
        assert(chunks.skip(0) =~= chunks);
        lemma_chunk_bytes_rejoin(bytes, limit);
        lemma_cut_point_is_best(bytes, limit);
    } else {
        let behind = chunks_of(bytes.skip(cut), limit);
        law_byte_chunks_end_at_the_best_cut(bytes.skip(cut), limit, i - 1);
        assert(chunks.skip(i) =~= behind.skip(i - 1));
        assert(chunks[i] == behind[i - 1]);
    }
}

/// Each chunk but the last is as long as it can be: what is left of the text when it is cut off
/// is longer than the limit, and the cut is the best one in as much of it as fits.
pub proof fn law_chunks_end_at_the_best_cut(text: Seq<char>, limit: int, i: int)
    requires
        can_chunk(encode_utf8(text), limit),
        0 <= i < text_chunks(text, limit).len() - 1,
    ensures
        ({
            let left = encode_utf8(text_chunks(text, limit).skip(i).flatten());
            &&& left.len() > limit > 0
            &&& is_best_cut(
                left.take(limit),
                encode_utf8(text_chunks(text, limit)[i]).len() as int,
            )
        }),
{
    let bytes = encode_utf8(text);
    let chunks = text_chunks(text, limit);
    let encoded = chunks.map_values(|t: Seq<char>| encode_utf8(t));
    lemma_chunk_encoding(text, limit);
    law_byte_chunks_end_at_the_best_cut(bytes, limit, i);
    lemma_encode_flatten(chunks.skip(i));
    assert(chunks.skip(i).map_values(|t: Seq<char>| encode_utf8(t)) =~= encoded.skip(i));
    assert(encoded[i] == encode_utf8(chunks[i]));
}

/// A text can be split if and only if it fits, or else the limit is not zero, as much of it as
/// fits ends between two characters, and what its first chunk leaves can be split.
pub proof fn law_what_can_be_split(bytes: Seq<u8>, limit: int)
    ensures
        can_chunk(bytes, limit) <==> bytes.len() <= limit || {
            &&& limit > 0
            &&& is_char_boundary(bytes, limit)
            &&& can_chunk(bytes.skip(chunks_of(bytes, limit)[0].len() as int), limit)
        },
{
    if bytes.len() > limit && limit > 0 {
        lemma_cut_point_bounds(bytes, limit);
        assert(chunks_of(bytes, limit)[0] == bytes.take(cut_point(bytes, limit)));
    }
}

/// The chunks of any bytes, joined in order, are the bytes; there is one chunk if and only if
/// they fit, or the limit allows for none.
pub proof fn law_byte_chunks_rejoin(bytes: Seq<u8>, limit: int)
    ensures
        chunks_of(bytes, limit).flatten() == bytes,
        chunks_of(bytes, limit).len() >= 1,
        chunks_of(bytes, limit).len() == 1 <==> bytes.len() <= limit || limit <= 0,
    decreases bytes.len(),
{
    lemma_chunk_bytes_rejoin(bytes, limit);
    if bytes.len() > limit && limit > 0 {
        lemma_cut_point_bounds(bytes, limit);
        law_byte_chunks_rejoin(bytes.skip(cut_point(bytes, limit)), limit);
    }
}

/// The views of texts are those of each of them, in order.
pub proof fn law_text_views(texts: Seq<String>)
    ensures
        text_views(texts).len() == texts.len(),
        forall|i: int| 0 <= i < texts.len() ==> #[trigger] text_views(texts)[i] == texts[i]@,
{
}

} // verus!
