//! Stream emitter: turns a finished response into the pieces of an
//! incremental stream, without generating anything again.
//!
//! A response is cut into words at white space. The line-delimited protocol
//! sends one word per frame, the event-stream protocol one group of three.
//! Every piece but the first begins with one space, so that the pieces,
//! written one after another, spell the words of the response with single
//! spaces between them. That is the response itself where its words are
//! separated by single spaces and nothing else, and differs from it
//! otherwise: for "a  b", with two spaces, the pieces spell "a b".

use vstd::prelude::*;
use vstd::string::*;
use crate::cache_service::CacheSource;
use crate::json::{json_string, quote};
use crate::text::{concat_all, is_whitespace, lemma_concat_all_append, views, white_space};

verus! {

/// The number of words in one piece of the event-stream protocol.
pub const WORDS_PER_CHUNK: usize = 3;

/// The pause after each piece, in milliseconds.
pub const CHUNK_DELAY_MS: u64 = 60;

/// The number of frames that may wait for the consumer.
pub const CHANNEL_CAPACITY: usize = 32;

/// The words of `text` that are complete, and the characters of the word
/// that stands at its end, if it ends inside one.
pub open spec fn scan(text: Seq<char>) -> (Seq<Seq<char>>, Seq<char>)
    decreases text.len(),
{
    if text.len() == 0 {
        (Seq::empty(), Seq::empty())
    } else {
        let before = scan(text.drop_last());
        if white_space(text.last()) {
            if before.1.len() > 0 {
                (before.0.push(before.1), Seq::empty())
            } else {
                before
            }
        } else {
            (before.0, before.1.push(text.last()))
        }
    }
}

/// The words of `text`: its longest runs of characters that are no white
/// space, in order.
pub open spec fn words(text: Seq<char>) -> Seq<Seq<char>> {
    if scan(text).1.len() > 0 {
        scan(text).0.push(scan(text).1)
    } else {
        scan(text).0
    }
}

/// The pieces that carry `words`: each word, with one space before every
/// word but the first.
pub open spec fn spaced(words: Seq<Seq<char>>) -> Seq<Seq<char>> {
    Seq::new(
        words.len(),
        |i: int|
            if i == 0 {
                words[i]
            } else {
                seq![' '] + words[i]
            },
    )
}

/// The number of groups of three that `count` pieces fall into.
pub open spec fn chunk_count(count: nat) -> nat {
    (count + 2) / 3
}

/// The end of the group that begins at `start`, among `count` pieces.
pub open spec fn chunk_end(start: int, count: nat) -> int {
    if start + 3 <= count {
        start + 3
    } else {
        count as int
    }
}

/// The pieces in groups of three, each group written as one piece. The
/// last group holds what is left.
pub open spec fn chunked(pieces: Seq<Seq<char>>) -> Seq<Seq<char>> {
    Seq::new(
        chunk_count(pieces.len()),
        |j: int| concat_all(pieces.subrange(3 * j, chunk_end(3 * j, pieces.len()))),
    )
}

/// The pieces of the line-delimited protocol for `text`.
pub open spec fn line_pieces(text: Seq<char>) -> Seq<Seq<char>> {
    spaced(words(text))
}

/// The pieces of the event-stream protocol for `text`.
pub open spec fn event_pieces(text: Seq<char>) -> Seq<Seq<char>> {
    chunked(spaced(words(text)))
}

/// Text whose words are separated by single spaces and by nothing else:
/// every white-space character in it is a space that stands between two
/// characters that are no white space.
pub open spec fn single_spaced(text: Seq<char>) -> bool {
    forall|i: int|
        0 <= i < text.len() && white_space(#[trigger] text[i]) ==> text[i] == ' ' && 0 < i && i
            + 1 < text.len() && !white_space(text[i + 1])
}

/// A beginning of single-spaced text: as `single_spaced`, but the text may
/// end in a space.
pub open spec fn single_spaced_so_far(text: Seq<char>) -> bool {
    forall|i: int|
        0 <= i < text.len() && white_space(#[trigger] text[i]) ==> text[i] == ' ' && 0 < i && (i
            + 1 < text.len() ==> !white_space(text[i + 1]))
}

/// A word: at least one character, none of them white space.
pub open spec fn is_word(word: Seq<char>) -> bool {
    word.len() > 0 && forall|i: int| 0 <= i < word.len() ==> !white_space(#[trigger] word[i])
}

/// The space that goes before a word that follows `count` others.
pub open spec fn gap(count: nat) -> Seq<char> {
    if count > 0 {
        seq![' ']
    } else {
        Seq::empty()
    }
}

/// The pieces for one word more are the pieces so far and one piece for
/// the word.
pub proof fn lemma_spaced_push(words: Seq<Seq<char>>, word: Seq<char>)
    ensures
        spaced(words.push(word)) == spaced(words).push(gap(words.len()) + word),
        concat_all(spaced(words.push(word))) == concat_all(spaced(words)) + gap(words.len())
            + word,
{
    assert(spaced(words.push(word)) =~= spaced(words).push(gap(words.len()) + word)) by {
        assert(Seq::<char>::empty() + word =~= word);
    }
    assert(spaced(words).push(gap(words.len()) + word).drop_last() =~= spaced(words));
    assert(concat_all(spaced(words)) + (gap(words.len()) + word) =~= concat_all(spaced(words))
        + gap(words.len()) + word);
}

/// Every word that a scan has completed is a word, and the characters of
/// the word it stands in are no white space.
pub proof fn lemma_scan_shape(text: Seq<char>)
    ensures
        forall|k: int| 0 <= k < scan(text).0.len() ==> is_word(#[trigger] scan(text).0[k]),
        forall|i: int| 0 <= i < scan(text).1.len() ==> !white_space(#[trigger] scan(text).1[i]),
    decreases text.len(),
{
    if text.len() > 0 {
        let before = scan(text.drop_last());
        lemma_scan_shape(text.drop_last());
        if white_space(text.last()) {
            if before.1.len() > 0 {
                assert(is_word(before.1));
                assert forall|k: int| 0 <= k < scan(text).0.len() implies is_word(
                    #[trigger] scan(text).0[k],
                ) by {
                    if k < before.0.len() {
                        assert(scan(text).0[k] == before.0[k]);
                    }
                }
            }
        } else {
            assert forall|i: int| 0 <= i < scan(text).1.len() implies !white_space(
                #[trigger] scan(text).1[i],
            ) by {
                if i < before.1.len() {
                    assert(scan(text).1[i] == before.1[i]);
                }
            }
        }
    }
}

/// The words of a text are words.
pub proof fn lemma_words_shape(text: Seq<char>)
    ensures
        forall|k: int| 0 <= k < words(text).len() ==> is_word(#[trigger] words(text)[k]),
{
    lemma_scan_shape(text);
}

/// A scan of a beginning of single-spaced text has read exactly what its
/// words spell, with single spaces between them.
proof fn lemma_scan_spells(text: Seq<char>)
    requires
        single_spaced_so_far(text),
    ensures
        text.len() > 0 && white_space(text.last()) ==> scan(text).1.len() == 0 && scan(
            text,
        ).0.len() > 0 && text == concat_all(spaced(scan(text).0)) + seq![' '],
        !(text.len() > 0 && white_space(text.last())) ==> text == concat_all(
            spaced(scan(text).0),
        ) + gap(scan(text).0.len()) + scan(text).1 && (text.len() > 0 ==> scan(text).1.len()
            > 0),
    decreases text.len(),
{
    if text.len() == 0 {
        assert(text =~= concat_all(spaced(scan(text).0)) + gap(scan(text).0.len()) + scan(text).1);
    } else {
        let before = text.drop_last();
        let c = text.last();
        assert(single_spaced_so_far(before)) by {
            assert forall|i: int|
                0 <= i < before.len() && white_space(#[trigger] before[i]) implies before[i]
                == ' ' && 0 < i && (i + 1 < before.len() ==> !white_space(before[i + 1])) by {
                assert(before[i] == text[i]);
                if i + 1 < before.len() {
                    assert(before[i + 1] == text[i + 1]);
                }
            }
        }
        lemma_scan_spells(before);
        let done = scan(before).0;
        let current = scan(before).1;
        assert(text =~= before.push(c));
        if white_space(c) {
            assert(text[text.len() - 1] == c);
            assert(c == ' ' && text.len() - 1 > 0);
            assert(!white_space(before.last())) by {
                assert(before.last() == text[text.len() - 2]);
                if white_space(text[text.len() - 2]) {
                    assert(!white_space(text[text.len() - 2 + 1]));
                }
            }
            lemma_spaced_push(done, current);
            assert(scan(text) == (done.push(current), Seq::<char>::empty()));
        } else {
            assert(scan(text) == (done, current.push(c)));
            if before.len() > 0 && white_space(before.last()) {
                assert(text =~= concat_all(spaced(done)) + gap(done.len()) + current.push(c));
            } else {
                assert(text =~= concat_all(spaced(done)) + gap(done.len()) + current.push(c));
            }
        }
    }
}

/// Words with single spaces between them are single-spaced text.
proof fn lemma_spaced_words_are_single_spaced(words: Seq<Seq<char>>)
    requires
        forall|k: int| 0 <= k < words.len() ==> is_word(#[trigger] words[k]),
    ensures
        single_spaced(concat_all(spaced(words))),
        words.len() > 0 ==> concat_all(spaced(words)).len() > 0,
    decreases words.len(),
{
    if words.len() > 0 {
        let earlier = words.drop_last();
        let word = words.last();
        assert(is_word(words[words.len() - 1]));
        assert forall|k: int| 0 <= k < earlier.len() implies is_word(#[trigger] earlier[k]) by {
            assert(earlier[k] == words[k]);
        }
        lemma_spaced_words_are_single_spaced(earlier);
        assert(words =~= earlier.push(word));
        lemma_spaced_push(earlier, word);
        let spelled = concat_all(spaced(earlier));
        let whole = concat_all(spaced(words));
        assert(whole == spelled + gap(earlier.len()) + word);
        assert forall|i: int| 0 <= i < whole.len() && white_space(#[trigger] whole[i]) implies
            whole[i] == ' ' && 0 < i && i + 1 < whole.len() && !white_space(whole[i + 1]) by {
            let head = spelled.len() + gap(earlier.len()).len();
            if i < spelled.len() {
                assert(whole[i] == spelled[i]);
                assert(whole[i + 1] == spelled[i + 1]);
            } else if i < head {
                assert(whole[i] == ' ');
                assert(whole[i + 1] == word[0]);
            } else {
                assert(whole[i] == word[i - head]);
            }
        }
    }
}

/// Stream reconstruction, line-delimited: the pieces, written one after
/// another, spell the response exactly where the response is single-spaced,
/// and only there.
pub proof fn lemma_line_pieces_spell_text(text: Seq<char>)
    ensures
        single_spaced(text) <==> concat_all(line_pieces(text)) == text,
{
    if single_spaced(text) {
        assert(single_spaced_so_far(text));
        lemma_scan_spells(text);
        if text.len() > 0 {
            assert(!white_space(text.last())) by {
                if white_space(text[text.len() - 1]) {
                    assert(false);
                }
            }
            lemma_spaced_push(scan(text).0, scan(text).1);
        } else {
            assert(concat_all(line_pieces(text)) =~= text);
        }
    }
    if concat_all(line_pieces(text)) == text {
        lemma_words_shape(text);
        lemma_spaced_words_are_single_spaced(words(text));
    }
}

/// Grouping changes nothing in what the pieces spell.
pub proof fn lemma_chunks_spell_pieces(pieces: Seq<Seq<char>>)
    ensures
        concat_all(chunked(pieces)) == concat_all(pieces),
{
    let chunks = chunked(pieces);
    lemma_chunk_prefix_spells(pieces, chunks.len());
    assert(chunks.take(chunks.len() as int) =~= chunks);
    assert(pieces.take(pieces.len() as int) =~= pieces);
}

/// The first `count` groups spell what the pieces that went into them
/// spell.
proof fn lemma_chunk_prefix_spells(pieces: Seq<Seq<char>>, count: nat)
    requires
        count <= chunk_count(pieces.len()),
    ensures
        concat_all(chunked(pieces).take(count as int)) == concat_all(
            pieces.take(chunk_end(3 * (count - 1), pieces.len())),
        ),
        count == chunk_count(pieces.len()) ==> chunk_end(3 * (count - 1), pieces.len())
            == pieces.len(),
    decreases count,
{
    let chunks = chunked(pieces);
    if count == 0 {
        assert(chunks.take(0) =~= Seq::<Seq<char>>::empty());
        assert(pieces.take(chunk_end(-3, pieces.len())) =~= Seq::<Seq<char>>::empty());
    } else {
        lemma_chunk_prefix_spells(pieces, (count - 1) as nat);
        let start = 3 * (count - 1);
        let end = chunk_end(start, pieces.len());
        assert(chunks.take(count as int).drop_last() =~= chunks.take(count - 1));
        assert(chunks.take(count as int).last() == concat_all(pieces.subrange(start, end)));
        assert(chunk_end(3 * (count - 2), pieces.len()) == start);
        assert(pieces.take(end) =~= pieces.take(start) + pieces.subrange(start, end));
        lemma_concat_all_append(pieces.take(start), pieces.subrange(start, end));
    }
}

/// Stream reconstruction: for a single-spaced response, the pieces of
/// either protocol, written one after another, are the response, white
/// space and all. For any response the two protocols spell the same text.
pub proof fn lemma_stream_reconstruction(text: Seq<char>)
    ensures
        concat_all(event_pieces(text)) == concat_all(line_pieces(text)),
        single_spaced(text) ==> concat_all(line_pieces(text)) == text && concat_all(
            event_pieces(text),
        ) == text,
{
    lemma_chunks_spell_pieces(spaced(words(text)));
    lemma_line_pieces_spell_text(text);
}

/// The words of `text`.
pub fn split_words(text: &str) -> (list: Vec<String>)
    ensures
        views(list@) == words(text@),
{
    let mut done: Vec<String> = Vec::new();
    let mut current = String::new();
    let source = text.chars();
    assert(text@.take(0) =~= Seq::<char>::empty());
    assert(views(done@) =~= Seq::<Seq<char>>::empty());
    for c in it: source
        invariant
            it.seq() == text@,
            views(done@) == scan(text@.take(it.index() as int)).0,
            current@ == scan(text@.take(it.index() as int)).1,
    {
        proof {
            let upto = text@.take(it.index() + 1);
            assert(upto.drop_last() =~= text@.take(it.index() as int));
            assert(upto.last() == c);
        }
        if is_whitespace(c) {
            if !current.as_str().is_empty() {
                let ghost before = done@;
                done.push(current);
                assert(views(done@) =~= views(before).push(current@));
                current = String::new();
            }
        } else {
            current.push(c);
        }
    }
    assert(text@.take(text@.len() as int) =~= text@);
    if !current.as_str().is_empty() {
        let ghost before = done@;
        done.push(current);
        assert(views(done@) =~= views(before).push(current@));
    }
    done
}

/// The pieces that carry `words`, one word each.
pub fn space_words(words: &Vec<String>) -> (pieces: Vec<String>)
    ensures
        views(pieces@) == spaced(views(words@)),
{
    let mut pieces: Vec<String> = Vec::new();
    let mut i: usize = 0;
    while i < words.len()
        invariant
            i <= words.len(),
            pieces.len() == i,
            forall|k: int| 0 <= k < i ==> (#[trigger] pieces@[k])@ == spaced(views(words@))[k],
        decreases words.len() - i,
    {
        let mut piece = if i == 0 {
            String::new()
        } else {
            String::from_str(" ")
        };
        proof {
            reveal_strlit(" ");
            assert(" "@ =~= seq![' ']);
        }
        piece.append(words[i].as_str());
        assert(piece@ =~= spaced(views(words@))[i as int]);
        pieces.push(piece);
        i = i + 1;
    }
    assert(views(pieces@) =~= spaced(views(words@)));
    pieces
}

/// The pieces in groups of three, each group joined into one piece.
pub fn chunk_pieces(pieces: &Vec<String>) -> (chunks: Vec<String>)
    ensures
        views(chunks@) == chunked(views(pieces@)),
{
    let ghost all = views(pieces@);
    let mut chunks: Vec<String> = Vec::new();
    let mut start: usize = 0;
    while start < pieces.len()
        invariant
            all == views(pieces@),
            start <= pieces.len(),
            start < pieces.len() ==> start == 3 * chunks.len(),
            chunks.len() == chunk_count(start as nat),
            forall|j: int| 0 <= j < chunks.len() ==> (#[trigger] chunks@[j])@ == chunked(all)[j],
        decreases pieces.len() - start,
    {
        let end: usize = if pieces.len() - start >= WORDS_PER_CHUNK {
            start + WORDS_PER_CHUNK
        } else {
            pieces.len()
        };
        let mut chunk = String::new();
        let mut k: usize = start;
        assert(all.subrange(start as int, start as int) =~= Seq::<Seq<char>>::empty());
        while k < end
            invariant
                all == views(pieces@),
                start <= k <= end <= pieces.len(),
                chunk@ == concat_all(all.subrange(start as int, k as int)),
            decreases end - k,
        {
            chunk.append(pieces[k].as_str());
            proof {
                let longer = all.subrange(start as int, k + 1);
                assert(longer.drop_last() =~= all.subrange(start as int, k as int));
                assert(longer.last() == pieces@[k as int]@);
            }
            k = k + 1;
        }
        assert(end == chunk_end(3 * chunks.len(), all.len()));
        chunks.push(chunk);
        start = end;
    }
    assert(views(chunks@) =~= chunked(all));
    chunks
}

/// The pieces of the line-delimited protocol for `text`.
pub fn line_tokens(text: &str) -> (pieces: Vec<String>)
    ensures
        views(pieces@) == line_pieces(text@),
{
    let words = split_words(text);
    space_words(&words)
}

/// The pieces of the event-stream protocol for `text`.
pub fn event_chunks(text: &str) -> (pieces: Vec<String>)
    ensures
        views(pieces@) == event_pieces(text@),
{
    let words = split_words(text);
    let pieces = space_words(&words);
    chunk_pieces(&pieces)
}

/// The wire protocol of a stream.
#[derive(Debug, Clone, Copy, PartialEq, Eq, Structural)]
pub enum Protocol {
    /// Named events: `token` for each piece, then `meta`, then `done`.
    EventStream,
    /// One JSON object per line: one for each piece, then the last one.
    LineDelimited,
}

/// `true` or `false`, as JSON writes them.
pub open spec fn json_bool(value: bool) -> Seq<char> {
    if value {
        "true"@
    } else {
        "false"@
    }
}

/// The tier that served the response as a JSON string, or `null` where
/// the response was generated.
pub open spec fn json_source(source: Option<CacheSource>) -> Seq<char> {
    match source {
        Some(tier) => json_string(tier.name()),
        None => "null"@,
    }
}

/// The line that carries one piece, given the time, the model and the
/// piece as JSON strings.
pub open spec fn token_line_of(
    created_at_json: Seq<char>,
    model_json: Seq<char>,
    piece_json: Seq<char>,
) -> Seq<char> {
    "{\"created_at\":"@ + created_at_json + ",\"done\":false,\"model\":"@ + model_json
        + ",\"response\":"@ + piece_json + "}\n"@
}

/// The line that carries one piece in the line-delimited protocol.
pub open spec fn token_line(model: Seq<char>, created_at: Seq<char>, piece: Seq<char>) -> Seq<
    char,
> {
    token_line_of(json_string(created_at), json_string(model), json_string(piece))
}

/// The line that ends a stream, given the tier, the conversation, the time
/// and the model as JSON values.
pub open spec fn final_line_of(
    cache_hit: bool,
    source_json: Seq<char>,
    conversation_json: Seq<char>,
    created_at_json: Seq<char>,
    model_json: Seq<char>,
) -> Seq<char> {
    "{\"cache_hit\":"@ + json_bool(cache_hit) + ",\"cache_source\":"@ + source_json
        + ",\"conversation_id\":"@ + conversation_json + ",\"created_at\":"@ + created_at_json
        + ",\"done\":true,\"model\":"@ + model_json + ",\"response\":\"\"}\n"@
}

/// The line that ends a stream in the line-delimited protocol.
pub open spec fn final_line(
    model: Seq<char>,
    created_at: Seq<char>,
    cache_hit: bool,
    cache_source: Option<CacheSource>,
    conversation_id: Seq<char>,
) -> Seq<char> {
    final_line_of(
        cache_hit,
        json_source(cache_source),
        json_string(conversation_id),
        json_string(created_at),
        json_string(model),
    )
}

/// The event that carries one piece in the event-stream protocol.
pub open spec fn token_event(piece: Seq<char>) -> Seq<char> {
    "event: token\ndata: "@ + piece + "\n\n"@
}

/// The event that says where the response came from, given the tier as a
/// JSON value.
pub open spec fn meta_event_of(cache_hit: bool, source_json: Seq<char>) -> Seq<char> {
    "event: meta\ndata: {\"cache_hit\":"@ + json_bool(cache_hit) + ",\"cache_source\":"@
        + source_json + "}\n\n"@
}

/// The event that says where the response came from.
pub open spec fn meta_event(cache_hit: bool, cache_source: Option<CacheSource>) -> Seq<char> {
    meta_event_of(cache_hit, json_source(cache_source))
}

/// The event that ends a stream in the event-stream protocol.
pub open spec fn done_event() -> Seq<char> {
    "event: done\ndata: \n\n"@
}

fn append_bool(text: &mut String, value: bool)
    ensures
        final(text)@ == old(text)@ + json_bool(value),
{
    if value {
        text.append("true");
    } else {
        text.append("false");
    }
}

/// The tier that served a response as a JSON value.
pub fn write_source(source: Option<CacheSource>) -> (text: String)
    ensures
        text@ == json_source(source),
{
    match source {
        Some(tier) => quote(tier.as_str()),
        None => String::from_str("null"),
    }
}

/// The line that carries one piece, given the time, the model and the
/// piece as JSON strings.
pub fn frame_token_line(created_at_json: &str, model_json: &str, piece_json: &str) -> (line: String)
    ensures
        line@ == token_line_of(created_at_json@, model_json@, piece_json@),
{
    let mut line = String::from_str("{\"created_at\":");
    line.append(created_at_json);
    line.append(",\"done\":false,\"model\":");
    line.append(model_json);
    line.append(",\"response\":");
    line.append(piece_json);
    line.append("}\n");
    line
}

/// The line that carries `piece` in the line-delimited protocol.
pub fn write_token_line(model: &str, created_at: &str, piece: &str) -> (line: String)
    ensures
        line@ == token_line(model@, created_at@, piece@),
{
    frame_token_line(quote(created_at).as_str(), quote(model).as_str(), quote(piece).as_str())
}

/// The line that ends a stream, given the tier, the conversation, the time
/// and the model as JSON values.
pub fn frame_final_line(
    cache_hit: bool,
    source_json: &str,
    conversation_json: &str,
    created_at_json: &str,
    model_json: &str,
) -> (line: String)
    ensures
        line@ == final_line_of(
            cache_hit,
            source_json@,
            conversation_json@,
            created_at_json@,
            model_json@,
        ),
{
    let mut line = String::from_str("{\"cache_hit\":");
    append_bool(&mut line, cache_hit);
    line.append(",\"cache_source\":");
    line.append(source_json);
    line.append(",\"conversation_id\":");
    line.append(conversation_json);
    line.append(",\"created_at\":");
    line.append(created_at_json);
    line.append(",\"done\":true,\"model\":");
    line.append(model_json);
    line.append(",\"response\":\"\"}\n");
    line
}

/// The line that ends a stream in the line-delimited protocol.
pub fn write_final_line(
    model: &str,
    created_at: &str,
    cache_hit: bool,
    cache_source: Option<CacheSource>,
    conversation_id: &str,
) -> (line: String)
    ensures
        line@ == final_line(model@, created_at@, cache_hit, cache_source, conversation_id@),
{
    frame_final_line(
        cache_hit,
        write_source(cache_source).as_str(),
        quote(conversation_id).as_str(),
        quote(created_at).as_str(),
        quote(model).as_str(),
    )
}

/// The event that carries `piece` in the event-stream protocol.
pub fn write_token_event(piece: &str) -> (event: String)
    ensures
        event@ == token_event(piece@),
{
    let mut event = String::from_str("event: token\ndata: ");
    event.append(piece);
    event.append("\n\n");
    event
}

/// The event that says where the response came from, given the tier as a
/// JSON value.
pub fn frame_meta_event(cache_hit: bool, source_json: &str) -> (event: String)
    ensures
        event@ == meta_event_of(cache_hit, source_json@),
{
    let mut event = String::from_str("event: meta\ndata: {\"cache_hit\":");
    append_bool(&mut event, cache_hit);
    event.append(",\"cache_source\":");
    event.append(source_json);
    event.append("}\n\n");
    event
}

/// The event that says where the response came from.
pub fn write_meta_event(cache_hit: bool, cache_source: Option<CacheSource>) -> (event: String)
    ensures
        event@ == meta_event(cache_hit, cache_source),
{
    frame_meta_event(cache_hit, write_source(cache_source).as_str())
}

/// The event that ends a stream in the event-stream protocol.
pub fn write_done_event() -> (event: String)
    ensures
        event@ == done_event(),
{
    String::from_str("event: done\ndata: \n\n")
}

/// A stream as its contracts see it.
pub struct EmitterState {
    pub protocol: Protocol,
    /// The pieces of the response, in the order in which they are sent.
    pub pieces: Seq<Seq<char>>,
    pub model: Seq<char>,
    pub cache_hit: bool,
    pub cache_source: Option<CacheSource>,
    pub conversation_id: Seq<char>,
    /// The number of frames handed out so far.
    pub sent: nat,
    /// Whether the consumer is gone.
    pub stopped: bool,
}

/// The pieces that a stream of `text` sends under `protocol`.
pub open spec fn pieces_for(protocol: Protocol, text: Seq<char>) -> Seq<Seq<char>> {
    match protocol {
        Protocol::EventStream => event_pieces(text),
        Protocol::LineDelimited => line_pieces(text),
    }
}

/// The number of frames that follow the pieces: `meta` and `done` in the
/// event-stream protocol, the last line in the line-delimited one.
pub open spec fn closing_frames(protocol: Protocol) -> nat {
    match protocol {
        Protocol::EventStream => 2,
        Protocol::LineDelimited => 1,
    }
}

/// The number of frames of a whole stream.
pub open spec fn frame_count(state: EmitterState) -> nat {
    state.pieces.len() + closing_frames(state.protocol)
}

/// The frame at `index` of a stream, stamped `created_at`.
pub open spec fn frame_at(state: EmitterState, index: nat, created_at: Seq<char>) -> Seq<char> {
    match state.protocol {
        Protocol::LineDelimited => if index < state.pieces.len() {
            token_line(state.model, created_at, state.pieces[index as int])
        } else {
            final_line(
                state.model,
                created_at,
                state.cache_hit,
                state.cache_source,
                state.conversation_id,
            )
        },
        Protocol::EventStream => if index < state.pieces.len() {
            token_event(state.pieces[index as int])
        } else if index == state.pieces.len() {
            meta_event(state.cache_hit, state.cache_source)
        } else {
            done_event()
        },
    }
}

/// The pause after the frame at `index`: the fixed delay after a piece,
/// none after a closing frame.
pub open spec fn pause_after(state: EmitterState, index: nat) -> u64 {
    if index < state.pieces.len() {
        CHUNK_DELAY_MS
    } else {
        0
    }
}

/// What the producer does next.
pub enum Step {
    /// Send `frame`, then wait `pause_ms` milliseconds.
    Emit { frame: Seq<char>, pause_ms: u64 },
    /// The stream is over.
    Finished,
}

/// One step of the producer: the next frame, unless the consumer is gone
/// or every frame has been handed out.
pub open spec fn advance(state: EmitterState, created_at: Seq<char>) -> (EmitterState, Step) {
    if state.stopped || state.sent >= frame_count(state) {
        (state, Step::Finished)
    } else {
        (
            EmitterState { sent: state.sent + 1, ..state },
            Step::Emit {
                frame: frame_at(state, state.sent, created_at),
                pause_ms: pause_after(state, state.sent),
            },
        )
    }
}

/// The state after the consumer has gone.
pub open spec fn halted(state: EmitterState) -> EmitterState {
    EmitterState { stopped: true, ..state }
}

/// Cancellation: once the consumer is gone the producer hands out no
/// further frame, whatever is left of the response.
pub proof fn lemma_no_frame_after_consumer_left(state: EmitterState, created_at: Seq<char>)
    ensures
        advance(halted(state), created_at) == (halted(state), Step::Finished),
{
}

/// A stream that is not cancelled hands out its frames in order, one per
/// step, and is over after the last of them.
pub proof fn lemma_frames_in_order(state: EmitterState, created_at: Seq<char>)
    requires
        !state.stopped,
    ensures
        state.sent < frame_count(state) ==> advance(state, created_at).1 == (Step::Emit {
            frame: frame_at(state, state.sent, created_at),
            pause_ms: pause_after(state, state.sent),
        }) && advance(state, created_at).0.sent == state.sent + 1,
        state.sent >= frame_count(state) ==> advance(state, created_at).1 == Step::Finished,
{
}

/// What the producer does next, with the frame to send.
#[derive(Debug)]
pub enum StreamStep {
    Emit { frame: String, pause_ms: u64 },
    Finished,
}

impl View for StreamStep {
    type V = Step;

    open spec fn view(&self) -> Step {
        match self {
            StreamStep::Emit { frame, pause_ms } => Step::Emit { frame: frame@, pause_ms: *pause_ms },
            StreamStep::Finished => Step::Finished,
        }
    }
}

/// The producer of one stream.
pub struct StreamEmitter {
    protocol: Protocol,
    pieces: Vec<String>,
    model: String,
    cache_hit: bool,
    cache_source: Option<CacheSource>,
    conversation_id: String,
    next_piece: usize,
    closing_sent: u8,
    stopped: bool,
}

impl View for StreamEmitter {
    type V = EmitterState;

    closed spec fn view(&self) -> EmitterState {
        EmitterState {
            protocol: self.protocol,
            pieces: views(self.pieces@),
            model: self.model@,
            cache_hit: self.cache_hit,
            cache_source: self.cache_source,
            conversation_id: self.conversation_id@,
            sent: (self.next_piece + self.closing_sent) as nat,
            stopped: self.stopped,
        }
    }
}

impl StreamEmitter {
    /// The producer's invariant: closing frames are sent after the pieces.
    pub closed spec fn wf(&self) -> bool {
        &&& self.next_piece <= self.pieces.len()
        &&& self.closing_sent <= 2
        &&& self.closing_sent > 0 ==> self.next_piece == self.pieces.len()
    }

    /// The producer of a stream of `response` under `protocol`.
    pub fn new(
        protocol: Protocol,
        response: &str,
        model: String,
        cache_hit: bool,
        cache_source: Option<CacheSource>,
        conversation_id: String,
    ) -> (emitter: StreamEmitter)
        ensures
            emitter.wf(),
            emitter@ == (EmitterState {
                protocol,
                pieces: pieces_for(protocol, response@),
                model: model@,
                cache_hit,
                cache_source,
                conversation_id: conversation_id@,
                sent: 0,
                stopped: false,
            }),
    {
        let pieces = match protocol {
            Protocol::EventStream => event_chunks(response),
            Protocol::LineDelimited => line_tokens(response),
        };
        StreamEmitter {
            protocol,
            pieces,
            model,
            cache_hit,
            cache_source,
            conversation_id,
            next_piece: 0,
            closing_sent: 0,
            stopped: false,
        }
    }

    /// The next step of the producer. `created_at` is the current time as
    /// the frame is to state it.
    pub fn next(&mut self, created_at: &str) -> (step: StreamStep)
        requires
            old(self).wf(),
        ensures
            final(self).wf(),
            (final(self)@, step@) == advance(old(self)@, created_at@),
    {
        if self.stopped {
            return StreamStep::Finished;
        }
        if self.next_piece < self.pieces.len() {
            let piece = self.pieces[self.next_piece].as_str();
            let frame = match self.protocol {
                Protocol::LineDelimited => write_token_line(self.model.as_str(), created_at, piece),
                Protocol::EventStream => write_token_event(piece),
            };
            self.next_piece = self.next_piece + 1;
            return StreamStep::Emit { frame, pause_ms: CHUNK_DELAY_MS };
        }
        match self.protocol {
            Protocol::LineDelimited => {
                if self.closing_sent >= 1 {
                    return StreamStep::Finished;
                }
                let frame = write_final_line(
                    self.model.as_str(),
                    created_at,
                    self.cache_hit,
                    self.cache_source,
                    self.conversation_id.as_str(),
                );
                self.closing_sent = 1;
                StreamStep::Emit { frame, pause_ms: 0 }
            },
            Protocol::EventStream => {
                if self.closing_sent >= 2 {
                    return StreamStep::Finished;
                }
                let frame = if self.closing_sent == 0 {
                    write_meta_event(self.cache_hit, self.cache_source)
                } else {
                    write_done_event()
                };
                self.closing_sent = self.closing_sent + 1;
                StreamStep::Emit { frame, pause_ms: 0 }
            },
        }
    }

    /// Tells the producer that the consumer is gone: no frame follows.
    pub fn consumer_gone(&mut self)
        requires
            old(self).wf(),
        ensures
            final(self).wf(),
            final(self)@ == halted(old(self)@),
    {
        self.stopped = true;
    }
}

} // verus!
