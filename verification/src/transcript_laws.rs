//! What goes on to the web app of what the speech service says.
use vstd::prelude::*;
use crate::json::{Json, json_of, json_print, json_read};
use crate::text::{texts_view, trimmed};
use crate::transcript::{
    Incoming, Received, Report, Transcript, TranscriptFilter, TranscriptView, channel_of, last_after,
    law_no_empty_or_repeated_text, law_only_proposals_are_sent, low_32, newest, payload_json,
    payloads_of, read_report, report_of, selected, transcripts_of, transcripts_view, worth_sending,
    write_payload,
};

verus! {

/// Whether a document is an object with this member.
pub open spec fn holds(json: Json, key: Seq<char>, value: Json) -> bool {
    match json {
        Json::Object(members) => members.dom().contains(key) && members[key] == value,
        _ => false,
    }
}

/// A transcript says that the speaker has paused exactly where the service says so in
/// as many words: where its message has the member "speech_final", and that is true.
pub proof fn law_pauses_are_told(last: Seq<char>, json: Json, i: int)
    requires
        0 <= i < transcripts_of(last, report_of(json)).len(),
    ensures
        transcripts_of(last, report_of(json))[i].speech_final <==> holds(
            json,
            "speech_final"@,
            Json::Bool(true),
        ),
{
}

/// Nothing goes on, and nothing is remembered, unless the service says in as many words
/// that its message is final.
pub proof fn law_only_final_messages_go_on(last: Seq<char>, json: Json)
    requires
        !holds(json, "is_final"@, Json::Bool(true)),
    ensures
        transcripts_of(last, report_of(json)).len() == 0,
        newest(last, selected(last, report_of(json))) == last,
{
}

/// Of a final message all that is worth sending goes on, with one speaker and one word
/// on the pause for all of it, and the last text sent is remembered.
pub proof fn law_final_messages_go_on(last: Seq<char>, json: Json)
    requires
        holds(json, "is_final"@, Json::Bool(true)),
    ensures
        ({
            let report = report_of(json);
            let sent = worth_sending(last, report.texts);
            let all = transcripts_of(last, report);
            &&& all.len() == sent.len()
            &&& forall|i: int|
                0 <= i < all.len() ==> #[trigger] all[i] == (TranscriptView {
                    text: sent[i],
                    speaker: report.speaker,
                    speech_final: report.speech_final,
                })
            &&& sent.len() == 0 ==> newest(last, selected(last, report)) == last
            &&& sent.len() > 0 ==> newest(last, selected(last, report)) == sent.last()
        }),
{
}

/// One more text goes on if it says something, and something else than what went on
/// right before it. What went on before stays.
pub proof fn law_each_text_is_judged(last: Seq<char>, texts: Seq<Seq<char>>, text: Seq<char>)
    ensures
        worth_sending(last, Seq::<Seq<char>>::empty()).len() == 0,
        ({
            let before = worth_sending(last, texts);
            let after = worth_sending(last, texts.push(text));
            let sent_last = if before.len() > 0 {
                before.last()
            } else {
                last
            };
            &&& text.len() == 0 || text == sent_last ==> after == before
            &&& text.len() > 0 && text != sent_last ==> after == before.push(text)
        }),
{
    assert(texts.push(text).drop_last() =~= texts);
}

/// The texts of a message are those of its alternatives, one for each and in order,
/// without the white space around them. An alternative without a text has an empty one.
pub proof fn law_texts_are_those_of_the_alternatives(
    json: Json,
    channel: Json,
    alternatives: Seq<Json>,
    i: int,
    text: Seq<char>,
)
    requires
        holds(json, "channel"@, channel),
        holds(channel, "alternatives"@, Json::List(alternatives)),
    ensures
        report_of(json).texts.len() == alternatives.len(),
        0 <= i < alternatives.len() && holds(alternatives[i], "transcript"@, Json::Text(text))
            ==> report_of(json).texts[i] == trimmed(text),
        0 <= i < alternatives.len() && !(exists|t: Seq<char>|
            #[trigger] holds(alternatives[i], "transcript"@, Json::Text(t)))
            ==> report_of(json).texts[i].len() == 0,
{
    if 0 <= i < alternatives.len() {
        match alternatives[i].at("transcript"@) {
            Json::Text(t) => {
                assert(holds(alternatives[i], "transcript"@, Json::Text(t)));
            },
            _ => {},
        }
    }
}

/// A message without a list of alternatives has no texts.
pub proof fn law_no_alternatives_no_texts(json: Json)
    requires
        forall|channel: Json, alternatives: Seq<Json>|
            !(#[trigger] holds(json, "channel"@, channel) && #[trigger] holds(
                channel,
                "alternatives"@,
                Json::List(alternatives),
            )),
    ensures
        report_of(json).texts.len() == 0,
{
    let channel = json.at("channel"@);
    match channel.at("alternatives"@) {
        Json::List(alternatives) => {
            assert(holds(json, "channel"@, channel));
            assert(holds(channel, "alternatives"@, Json::List(alternatives)));
        },
        _ => {},
    }
}

/// The channel that an index names, if it can name one: a number names itself, and a
/// list the number that it starts with, or zero.
pub open spec fn named_by(index: Json) -> Option<int> {
    match index {
        Json::Int(n) => if i64::MIN <= n <= i64::MAX {
            Some(n)
        } else {
            None
        },
        Json::List(items) => if items.len() > 0 {
            match items[0] {
                Json::Int(n) => if i64::MIN <= n <= i64::MAX {
                    Some(n)
                } else {
                    Some(0)
                },
                _ => Some(0),
            }
        } else {
            Some(0)
        },
        _ => None,
    }
}

/// Whether a speaker is the channel `n`, up to what 32 bits hold.
pub open spec fn speaks_on(speaker: i32, n: int) -> bool {
    &&& (n - speaker) % 0x1_0000_0000 == 0
    &&& i32::MIN <= n <= i32::MAX ==> speaker == n
}

proof fn lemma_low_bits(n: i64)
    ensures
        speaks_on(low_32(n), n as int),
{
}

/// The channel index of a message tells who speaks.
pub proof fn law_the_channel_index_tells_the_speaker(json: Json, index: Json, n: int)
    requires
        holds(json, "channel_index"@, index),
        named_by(index) == Some(n),
    ensures
        speaks_on(report_of(json).speaker, n),
{
    assert(channel_of(json) == n);
    lemma_low_bits(channel_of(json));
}

/// Where the message itself does not tell who speaks, the channel index in its metadata
/// does.
pub proof fn law_the_metadata_tells_the_speaker(json: Json, metadata: Json, index: Json, n: int)
    requires
        forall|own: Json| #[trigger] holds(json, "channel_index"@, own) ==> named_by(own) is None,
        holds(json, "metadata"@, metadata),
        holds(metadata, "channel_index"@, index),
        named_by(index) == Some(n),
    ensures
        speaks_on(report_of(json).speaker, n),
{
    let own = json.at("channel_index"@);
    assert(holds(json, "channel_index"@, own) || own == Json::Null);
    assert(channel_of(json) == n);
    lemma_low_bits(channel_of(json));
}

/// Where nothing tells who speaks, it is the first channel.
pub proof fn law_the_first_channel_speaks_otherwise(json: Json)
    requires
        forall|own: Json| #[trigger] holds(json, "channel_index"@, own) ==> named_by(own) is None,
        forall|metadata: Json, index: Json| #[trigger]
            holds(json, "metadata"@, metadata) && #[trigger] holds(metadata, "channel_index"@, index)
                ==> named_by(index) is None,
    ensures
        report_of(json).speaker == 0,
{
    let own = json.at("channel_index"@);
    let metadata = json.at("metadata"@);
    let index = metadata.at("channel_index"@);
    assert(holds(json, "channel_index"@, own) || own == Json::Null);
    assert(holds(json, "metadata"@, metadata) || metadata == Json::Null);
    assert(holds(metadata, "channel_index"@, index) || index == Json::Null);
}

/// The web app gets a transcript as an object of three members: its text, its speaker,
/// and whether the speaker has paused.
pub proof fn law_payloads_have_three_members(transcript: TranscriptView)
    ensures
        payload_json(transcript) matches Json::Object(members) && {
            &&& members.dom() == set!["text"@, "speaker"@, "speechFinal"@]
            &&& members["text"@] == Json::Text(transcript.text)
            &&& members["speaker"@] == Json::Int(transcript.speaker as int)
            &&& members["speechFinal"@] == Json::Bool(transcript.speech_final)
        },
{
    reveal_strlit("text");
    reveal_strlit("speaker");
    reveal_strlit("speechFinal");
    assert("text"@.len() == 4);
    assert("speaker"@.len() == 7);
    assert("speechFinal"@.len() == 11);
    match payload_json(transcript) {
        Json::Object(members) => {
            assert(members.dom() =~= set!["text"@, "speaker"@, "speechFinal"@]);
        },
        _ => {},
    }
}

/// What is written is what the web app reads.
pub proof fn law_written_transcripts_are_read(transcript: &Transcript, text: String)
    requires
        call_ensures(write_payload, (transcript,), text),
    ensures
        json_read(text@) matches Some(json) && {
            &&& holds(json, "text"@, Json::Text(transcript.text@))
            &&& holds(json, "speaker"@, Json::Int(transcript.speaker as int))
            &&& holds(json, "speechFinal"@, Json::Bool(transcript.speech_final))
        },
{
    law_payloads_have_three_members(transcript@);
}

/// A report holds what the message says, in each of its parts.
pub proof fn law_reports_are_read_whole(json: serde_json::Value, report: Report)
    requires
        call_ensures(read_report, (&json,), report),
    ensures
        report.is_final <==> holds(json_of(json), "is_final"@, Json::Bool(true)),
        report.speech_final <==> holds(json_of(json), "speech_final"@, Json::Bool(true)),
        report.speaker == report_of(json_of(json)).speaker,
        report.texts@.len() == report_of(json_of(json)).texts.len(),
        forall|i: int|
            0 <= i < report.texts@.len() ==> (#[trigger] report.texts@[i])@ == report_of(
                json_of(json),
            ).texts[i],
{
    assert(report@.is_final == report.is_final);
    assert forall|i: int| 0 <= i < report.texts@.len() implies (#[trigger] report.texts@[i])@
        == report_of(json_of(json)).texts[i] by {
        assert(report@.texts[i] == report.texts@[i]@);
    }
}

/// The transcripts that are selected of a report are its final texts that are worth
/// sending, each with the speaker and the pause of the report.
pub proof fn law_selection_keeps_the_report(
    filter: &mut TranscriptFilter,
    report: &Report,
    transcripts: Vec<Transcript>,
)
    requires
        call_ensures(TranscriptFilter::select, (filter, report), transcripts),
    ensures
        !report.is_final ==> transcripts@.len() == 0 && final(filter)@ == old(filter)@,
        report.is_final ==> {
            let sent = worth_sending(old(filter)@, texts_view(report.texts@));
            &&& transcripts@.len() == sent.len()
            &&& forall|i: int|
                0 <= i < transcripts@.len() ==> {
                    &&& (#[trigger] transcripts@[i]).text@ == sent[i]
                    &&& transcripts@[i].speaker == report.speaker
                    &&& transcripts@[i].speech_final == report.speech_final
                }
            &&& sent.len() == 0 ==> final(filter)@ == old(filter)@
            &&& sent.len() > 0 ==> final(filter)@ == sent.last()
        },
{
    let all = transcripts_of(old(filter)@, report@);
    assert(transcripts_view(transcripts@).len() == transcripts@.len());
    assert forall|i: int| 0 <= i < transcripts@.len() implies {
        &&& (#[trigger] transcripts@[i])@.text == all[i].text
        &&& transcripts@[i]@.speaker == all[i].speaker
        &&& transcripts@[i]@.speech_final == all[i].speech_final
    } by {
        assert(transcripts_view(transcripts@)[i] == transcripts@[i]@);
    }
}

/// Everything that the web app is told is true: it comes of a final message, says
/// something that was proposed, without white space around it, and says who speaks and
/// whether they have paused as the message does.
pub proof fn law_the_web_app_is_told_the_truth(
    filter: &mut TranscriptFilter,
    text: &str,
    payloads: Vec<String>,
    i: int,
)
    requires
        call_ensures(TranscriptFilter::receive, (filter, text), payloads),
        0 <= i < payloads@.len(),
    ensures
        json_read(text@) matches Some(json) && {
            &&& holds(json, "is_final"@, Json::Bool(true))
            &&& json_read(payloads@[i]@) matches Some(told) && {
                &&& holds(
                    told,
                    "speechFinal"@,
                    Json::Bool(holds(json, "speech_final"@, Json::Bool(true))),
                )
                &&& holds(told, "speaker"@, Json::Int(report_of(json).speaker as int))
                &&& exists|k: int|
                    {
                        &&& 0 <= k < report_of(json).texts.len()
                        &&& holds(told, "text"@, Json::Text(#[trigger] report_of(json).texts[k]))
                        &&& report_of(json).texts[k].len() > 0
                    }
            }
        },
{
    let last = old(filter)@;
    let views = texts_view(payloads@);
    assert(views.len() == payloads@.len());
    assert(views[i] == payloads@[i]@);
    match json_read(text@) {
        Some(json) => {
            let report = report_of(json);
            let all = transcripts_of(last, report);
            if !holds(json, "is_final"@, Json::Bool(true)) {
                law_only_final_messages_go_on(last, json);
            }
            law_final_messages_go_on(last, json);
            law_pauses_are_told(last, json, i);
            law_payloads_have_three_members(all[i]);
            law_only_proposals_are_sent(last, report.texts);
            law_no_empty_or_repeated_text(last, report.texts);
            let sent = worth_sending(last, report.texts);
            assert(report.texts.contains(sent[i]));
            let k = choose|k: int| 0 <= k < report.texts.len() && report.texts[k] == sent[i];
            assert(sent[i].len() > 0);
            assert(holds(json_read(views[i]).unwrap(), "text"@, Json::Text(report.texts[k])));
        },
        None => {},
    }
}

/// The web app is told everything: as many payloads go to it as there are texts worth
/// sending, in the same order, and the filter remembers the last of them. What is no
/// JSON document says nothing.
pub proof fn law_the_web_app_is_told_everything(
    filter: &mut TranscriptFilter,
    text: &str,
    payloads: Vec<String>,
)
    requires
        call_ensures(TranscriptFilter::receive, (filter, text), payloads),
    ensures
        match json_read(text@) {
            None => payloads@.len() == 0 && final(filter)@ == old(filter)@,
            Some(json) => {
                let sent = worth_sending(old(filter)@, report_of(json).texts);
                &&& !holds(json, "is_final"@, Json::Bool(true)) ==> {
                    &&& payloads@.len() == 0
                    &&& final(filter)@ == old(filter)@
                }
                &&& holds(json, "is_final"@, Json::Bool(true)) ==> {
                    &&& payloads@.len() == sent.len()
                    &&& forall|i: int|
                        0 <= i < sent.len() ==> {
                            &&& json_read((#[trigger] payloads@[i])@) matches Some(told)
                            &&& holds(told, "text"@, Json::Text(sent[i]))
                        }
                    &&& sent.len() == 0 ==> final(filter)@ == old(filter)@
                    &&& sent.len() > 0 ==> final(filter)@ == sent.last()
                }
            },
        },
{
    let last = old(filter)@;
    let views = texts_view(payloads@);
    assert(views.len() == payloads@.len());
    match json_read(text@) {
        Some(json) => {
            if holds(json, "is_final"@, Json::Bool(true)) {
                law_final_messages_go_on(last, json);
                let all = transcripts_of(last, report_of(json));
                let sent = worth_sending(last, report_of(json).texts);
                assert forall|i: int| 0 <= i < sent.len() implies {
                    &&& json_read((#[trigger] payloads@[i])@) matches Some(told)
                    &&& holds(told, "text"@, Json::Text(sent[i]))
                } by {
                    assert(views[i] == payloads@[i]@);
                    assert(json_read(views[i]) == Some(payload_json(all[i])));
                    law_payloads_have_three_members(all[i]);
                }
            } else {
                law_only_final_messages_go_on(last, json);
            }
        },
        None => {},
    }
}

/// Only text messages say anything, and only a connection that was closed or has failed
/// ends. A text message says what it says when it is received by itself.
pub proof fn law_messages_are_passed_on(
    filter: &mut TranscriptFilter,
    message: Incoming,
    received: Received,
)
    requires
        call_ensures(TranscriptFilter::on_message, (filter, message), received),
    ensures
        received.goes_on <==> message is Text || message is Other,
        message !is Text ==> received.payloads@.len() == 0 && final(filter)@ == old(filter)@,
        message matches Incoming::Text(text) ==> {
            &&& texts_view(received.payloads@) == payloads_of(old(filter)@, text@)
            &&& final(filter)@ == last_after(old(filter)@, text@)
        },
{
}

/// What is remembered of a message is the last text of it that went on, and what was
/// remembered before where none did.
pub proof fn law_the_last_text_is_remembered(last: Seq<char>, text: Seq<char>)
    ensures
        match json_read(text) {
            Some(json) => {
                let sent = worth_sending(last, report_of(json).texts);
                if holds(json, "is_final"@, Json::Bool(true)) && sent.len() > 0 {
                    last_after(last, text) == sent.last()
                } else {
                    last_after(last, text) == last
                }
            },
            None => last_after(last, text) == last,
        },
{
}

/// Payloads are the printed transcripts, one for each.
pub proof fn law_payloads_are_printed(last: Seq<char>, text: Seq<char>)
    ensures
        match json_read(text) {
            None => payloads_of(last, text).len() == 0,
            Some(json) => {
                let all = transcripts_of(last, report_of(json));
                &&& payloads_of(last, text).len() == all.len()
                &&& forall|i: int|
                    0 <= i < all.len() ==> #[trigger] payloads_of(last, text)[i] == json_print(
                        payload_json(all[i]),
                    )
            },
        },
{
}

/// A new filter has sent nothing, so that the first text goes on whatever it is.
pub proof fn law_new_filters_have_sent_nothing(filter: TranscriptFilter, text: Seq<char>)
    requires
        call_ensures(TranscriptFilter::new, (), filter),
        text.len() > 0,
    ensures
        worth_sending(filter@, seq![text]) == seq![text],
{
    law_each_text_is_judged(filter@, Seq::<Seq<char>>::empty(), text);
    assert(Seq::<Seq<char>>::empty().push(text) =~= seq![text]);
    let none = worth_sending(filter@, Seq::<Seq<char>>::empty());
    assert(none.push(text) =~= seq![text]);
}

} // verus!
