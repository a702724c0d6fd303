//! What the speech service says, and what of it goes on to the web app.
use vstd::prelude::*;
use crate::json::{
    Json, bool_value, insert_member, int_value, json_of, json_print, json_read, jsons_of,
    new_members, no_members, object_value, parse_value, print_value, text_value, value_at,
};
use crate::text::{is_empty, law_trimming_is_final, texts_view, trim, trimmed};

verus! {

/// The low 32 bits of a number, as a signed number.
pub open spec fn low_32(n: i64) -> i32 {
    let bits = n as int % 0x1_0000_0000;
    if bits < 0x8000_0000 {
        bits as i32
    } else {
        (bits - 0x1_0000_0000) as i32
    }
}

fn take_low_32(n: i64) -> (low: i32)
    ensures
        low == low_32(n),
{
    let low: i32 = #[verifier::truncate]
    (n as i32);
    proof {
        let unsigned: u64 = n as u64;
        let bits: u64 = unsigned % 0x1_0000_0000;
        assert(n >= 0 ==> unsigned == n) by (bit_vector)
            requires
                unsigned == n as u64,
        ;
        assert(n < 0 ==> unsigned == n + 0x1_0000_0000_0000_0000) by (bit_vector)
            requires
                unsigned == n as u64,
        ;
        assert(bits < 0x8000_0000 ==> low == bits) by (bit_vector)
            requires
                low == n as i32,
                bits == (n as u64) % 0x1_0000_0000,
        ;
        assert(bits >= 0x8000_0000 ==> low == bits - 0x1_0000_0000) by (bit_vector)
            requires
                low == n as i32,
                bits == (n as u64) % 0x1_0000_0000,
        ;
    }
    low
}

/// The number that a list starts with, or zero where it starts with none.
pub open spec fn leading_integer(items: Seq<Json>) -> i64 {
    if items.len() > 0 {
        match items[0].integer() {
            Some(n) => n,
            None => 0,
        }
    } else {
        0
    }
}

/// The channel that a message is about: the start of its channel list, its channel
/// number, or either of them in its metadata. It is zero where none says.
pub open spec fn channel_of(json: Json) -> i64 {
    let own = json.at("channel_index"@);
    let meta = json.at("metadata"@).at("channel_index"@);
    match (own.elements(), own.integer(), meta.elements(), meta.integer()) {
        (Some(items), _, _, _) => leading_integer(items),
        (_, Some(n), _, _) => n,
        (_, _, Some(items), _) => leading_integer(items),
        (_, _, _, Some(n)) => n,
        _ => 0,
    }
}

/// The transcript that an alternative proposes, without the white space around it.
/// It is empty where there is none.
pub open spec fn proposal(alternative: Json) -> Seq<char> {
    match alternative.at("transcript"@).text() {
        Some(text) => trimmed(text),
        None => Seq::empty(),
    }
}

/// What a message of the speech service reports.
#[verifier::ext_equal]
pub struct ReportView {
    pub texts: Seq<Seq<char>>,
    pub is_final: bool,
    pub speech_final: bool,
    pub speaker: i32,
}

/// What a message of the speech service reports.
pub open spec fn report_of(json: Json) -> ReportView {
    ReportView {
        texts: match json.at("channel"@).at("alternatives"@).elements() {
            Some(alternatives) => alternatives.map_values(|a: Json| proposal(a)),
            None => Seq::empty(),
        },
        is_final: json.at("is_final"@).truth() == Some(true),
        speech_final: json.at("speech_final"@).truth() == Some(true),
        speaker: low_32(channel_of(json)),
    }
}

/// What a message of the speech service reports: the transcripts that it proposes,
/// whether they are final, whether the speaker has paused, and on which channel
/// they speak.
pub struct Report {
    pub texts: Vec<String>,
    pub is_final: bool,
    pub speech_final: bool,
    pub speaker: i32,
}

impl View for Report {
    type V = ReportView;

    open spec fn view(&self) -> ReportView {
        ReportView {
            texts: texts_view(self.texts@),
            is_final: self.is_final,
            speech_final: self.speech_final,
            speaker: self.speaker,
        }
    }
}

/// A transcript as the web app gets it.
#[verifier::ext_equal]
pub struct TranscriptView {
    pub text: Seq<char>,
    pub speaker: i32,
    pub speech_final: bool,
}

/// A transcript as the web app gets it.
pub struct Transcript {
    pub text: String,
    pub speaker: i32,
    pub speech_final: bool,
}

impl View for Transcript {
    type V = TranscriptView;

    open spec fn view(&self) -> TranscriptView {
        TranscriptView {
            text: self.text@,
            speaker: self.speaker,
            speech_final: self.speech_final,
        }
    }
}

/// The views of some transcripts.
pub open spec fn transcripts_view(transcripts: Seq<Transcript>) -> Seq<TranscriptView> {
    transcripts.map_values(|t: Transcript| t@)
}

/// The text sent last: the last of those just sent, or the one before.
pub open spec fn newest(last: Seq<char>, sent: Seq<Seq<char>>) -> Seq<char> {
    if sent.len() > 0 {
        sent.last()
    } else {
        last
    }
}

/// Those of the texts that go on to the web app when `last` was sent before them:
/// each one that is not empty and is not what was sent right before it.
pub open spec fn worth_sending(last: Seq<char>, texts: Seq<Seq<char>>) -> Seq<Seq<char>>
    decreases texts.len(),
{
    if texts.len() == 0 {
        seq![]
    } else {
        let before = worth_sending(last, texts.drop_last());
        if texts.last().len() > 0 && texts.last() != newest(last, before) {
            before.push(texts.last())
        } else {
            before
        }
    }
}

/// Those of the texts of a report that go on to the web app. Only final ones do.
pub open spec fn selected(last: Seq<char>, report: ReportView) -> Seq<Seq<char>> {
    if report.is_final {
        worth_sending(last, report.texts)
    } else {
        seq![]
    }
}

/// The transcripts of a report that go on to the web app.
pub open spec fn transcripts_of(last: Seq<char>, report: ReportView) -> Seq<TranscriptView> {
    selected(last, report).map_values(
        |text: Seq<char>|
            TranscriptView {
                text,
                speaker: report.speaker,
                speech_final: report.speech_final,
            },
    )
}

/// A transcript as a JSON document.
pub open spec fn payload_json(transcript: TranscriptView) -> Json {
    Json::Object(
        no_members().insert("text"@, Json::Text(transcript.text)).insert(
            "speaker"@,
            Json::Int(transcript.speaker as int),
        ).insert("speechFinal"@, Json::Bool(transcript.speech_final)),
    )
}

/// What goes to the web app when `last` was sent before and the service sends
/// `text`.
pub open spec fn payloads_of(last: Seq<char>, text: Seq<char>) -> Seq<Seq<char>> {
    match json_read(text) {
        Some(json) => transcripts_of(last, report_of(json)).map_values(
            |t: TranscriptView| json_print(payload_json(t)),
        ),
        None => seq![],
    }
}

/// The web app reads each of these texts as the transcript it stands for.
pub open spec fn read_back(payloads: Seq<Seq<char>>, transcripts: Seq<TranscriptView>) -> bool {
    &&& payloads.len() == transcripts.len()
    &&& forall|i: int|
        0 <= i < payloads.len() ==> json_read(#[trigger] payloads[i]) == Some(
            payload_json(transcripts[i]),
        )
}

/// The web app reads what it gets as the transcripts that go on to it.
pub open spec fn payloads_read_back(
    last: Seq<char>,
    text: Seq<char>,
    payloads: Seq<Seq<char>>,
) -> bool {
    match json_read(text) {
        Some(json) => read_back(payloads, transcripts_of(last, report_of(json))),
        None => true,
    }
}

/// The text sent last, once the service has sent `text`.
pub open spec fn last_after(last: Seq<char>, text: Seq<char>) -> Seq<char> {
    match json_read(text) {
        Some(json) => newest(last, selected(last, report_of(json))),
        None => last,
    }
}

fn first_integer(items: &Vec<serde_json::Value>) -> (n: i64)
    ensures
        n == leading_integer(jsons_of(items@)),
{
    if items.len() > 0 {
        match items[0].as_i64() {
            Some(n) => n,
            None => 0,
        }
    } else {
        0
    }
}

fn read_channel(json: &serde_json::Value) -> (n: i64)
    ensures
        n == channel_of(json_of(*json)),
{
    let own = value_at(json, "channel_index");
    if let Some(items) = own.as_array() {
        return first_integer(items);
    }
    if let Some(n) = own.as_i64() {
        return n;
    }
    let meta = value_at(value_at(json, "metadata"), "channel_index");
    if let Some(items) = meta.as_array() {
        return first_integer(items);
    }
    match meta.as_i64() {
        Some(n) => n,
        None => 0,
    }
}

fn is_true(value: &serde_json::Value) -> (truth: bool)
    ensures
        truth == (json_of(*value).truth() == Some(true)),
{
    match value.as_bool() {
        Some(b) => b,
        None => false,
    }
}

fn read_proposal(alternative: &serde_json::Value) -> (text: String)
    ensures
        text@ == proposal(json_of(*alternative)),
{
    match value_at(alternative, "transcript").as_str() {
        Some(text) => trim(text).to_owned(),
        None => String::new(),
    }
}

/// Reads what a message of the speech service reports.
pub fn read_report(json: &serde_json::Value) -> (report: Report)
    ensures
        report@ == report_of(json_of(*json)),
{
    let mut texts: Vec<String> = Vec::new();
    let ghost proposed = report_of(json_of(*json)).texts;
    match value_at(value_at(json, "channel"), "alternatives").as_array() {
        Some(alternatives) => {
            let mut i: usize = 0;
            while i < alternatives.len()
                invariant
                    i <= alternatives.len(),
                    texts_view(texts@) == jsons_of(alternatives@).map_values(
                        |a: Json| proposal(a),
                    ).take(i as int),
                decreases alternatives.len() - i,
            {
                let ghost so_far = texts@;
                let text = read_proposal(&alternatives[i]);
                texts.push(text);
                i += 1;
                assert(texts_view(texts@) =~= texts_view(so_far).push(text@));
                assert(texts_view(texts@) =~= jsons_of(alternatives@).map_values(
                    |a: Json| proposal(a),
                ).take(i as int));
            }
            assert(texts_view(texts@) =~= proposed);
        },
        None => {
            assert(texts_view(texts@) =~= proposed);
        },
    }
    Report {
        texts,
        is_final: is_true(value_at(json, "is_final")),
        speech_final: is_true(value_at(json, "speech_final")),
        speaker: take_low_32(read_channel(json)),
    }
}

/// Writes a transcript as the web app gets it. The web app reads back what was
/// written.
pub fn write_payload(transcript: &Transcript) -> (text: String)
    ensures
        text@ == json_print(payload_json(transcript@)),
        json_read(text@) == Some(payload_json(transcript@)),
{
    let mut members = new_members();
    insert_member(&mut members, "text", text_value(transcript.text.as_str()));
    insert_member(&mut members, "speaker", int_value(transcript.speaker));
    insert_member(&mut members, "speechFinal", bool_value(transcript.speech_final));
    print_value(&object_value(members))
}

/// What is to be done after a message of the connection to the speech service.
pub struct Received {
    /// What goes to the web app, in order.
    pub payloads: Vec<String>,
    /// Whether there may be more messages.
    pub goes_on: bool,
}

/// What arrives over the connection to the speech service.
pub enum Incoming {
    /// A text message.
    Text(String),
    /// The service closes the connection.
    Closed,
    /// The connection failed.
    Failed,
    /// Anything else.
    Other,
}

/// Decides which transcripts of one connection go on to the web app.
pub struct TranscriptFilter {
    last: String,
}

impl View for TranscriptFilter {
    type V = Seq<char>;

    closed spec fn view(&self) -> Seq<char> {
        self.last@
    }
}

impl TranscriptFilter {
    /// The filter of a new connection, which has sent nothing.
    pub fn new() -> (filter: TranscriptFilter)
        ensures
            filter@ == Seq::<char>::empty(),
    {
        TranscriptFilter { last: String::new() }
    }

    /// Selects the transcripts of a report that go on to the web app.
    pub fn select(&mut self, report: &Report) -> (transcripts: Vec<Transcript>)
        ensures
            transcripts_view(transcripts@) == transcripts_of(old(self)@, report@),
            final(self)@ == newest(old(self)@, selected(old(self)@, report@)),
    {
        let mut transcripts: Vec<Transcript> = Vec::new();
        let ghost last = self@;
        let ghost texts = report@.texts;
        let ghost as_transcript = |text: Seq<char>|
            TranscriptView { text, speaker: report.speaker, speech_final: report.speech_final };
        if report.is_final {
            let mut i: usize = 0;
            while i < report.texts.len()
                invariant
                    i <= report.texts.len(),
                    texts == texts_view(report.texts@),
                    as_transcript == (|text: Seq<char>|
                        TranscriptView {
                            text,
                            speaker: report.speaker,
                            speech_final: report.speech_final,
                        }),
                    transcripts_view(transcripts@) == worth_sending(
                        last,
                        texts.take(i as int),
                    ).map_values(as_transcript),
                    self@ == newest(last, worth_sending(last, texts.take(i as int))),
                decreases report.texts.len() - i,
            {
                let text = &report.texts[i];
                let ghost before = worth_sending(last, texts.take(i as int));
                assert(texts.take(i + 1).drop_last() =~= texts.take(i as int));
                if !is_empty(text) && *text != self.last {
                    let ghost so_far = transcripts@;
                    transcripts.push(
                        Transcript {
                            text: text.clone(),
                            speaker: report.speaker,
                            speech_final: report.speech_final,
                        },
                    );
                    self.last = text.clone();
                    assert(transcripts_view(transcripts@) =~= transcripts_view(so_far).push(
                        as_transcript(text@),
                    ));
                    assert(transcripts_view(transcripts@) =~= before.push(text@).map_values(
                        as_transcript,
                    ));
                }
                i += 1;
            }
            assert(texts.take(i as int) =~= texts);
        }
        assert(transcripts_view(transcripts@) =~= transcripts_of(last, report@));
        transcripts
    }

    /// Takes a text message of the speech service and writes what of it goes to the
    /// web app. What is no JSON document is passed over.
    pub fn receive(&mut self, text: &str) -> (payloads: Vec<String>)
        ensures
            texts_view(payloads@) == payloads_of(old(self)@, text@),
            payloads_read_back(old(self)@, text@, texts_view(payloads@)),
            final(self)@ == last_after(old(self)@, text@),
    {
        let mut payloads: Vec<String> = Vec::new();
        let ghost last = self@;
        match parse_value(text) {
            Some(json) => {
                let transcripts = self.select(&read_report(&json));
                let mut i: usize = 0;
                while i < transcripts.len()
                    invariant
                        i <= transcripts.len(),
                        texts_view(payloads@) == transcripts_view(transcripts@).map_values(
                            |t: TranscriptView| json_print(payload_json(t)),
                        ).take(i as int),
                        read_back(
                            texts_view(payloads@),
                            transcripts_view(transcripts@).take(i as int),
                        ),
                    decreases transcripts.len() - i,
                {
                    let ghost so_far = payloads@;
                    let payload = write_payload(&transcripts[i]);
                    payloads.push(payload);
                    i += 1;
                    assert(texts_view(payloads@) =~= texts_view(so_far).push(payload@));
                    assert(texts_view(payloads@) =~= transcripts_view(transcripts@).map_values(
                        |t: TranscriptView| json_print(payload_json(t)),
                    ).take(i as int));
                }
                assert(texts_view(payloads@) =~= payloads_of(last, text@));
                assert(transcripts_view(transcripts@).take(i as int) =~= transcripts_view(
                    transcripts@,
                ));
            },
            None => {
                assert(texts_view(payloads@) =~= payloads_of(last, text@));
            },
        }
        payloads
    }

    /// Takes whatever arrives over the connection. Only text messages say anything,
    /// and nothing comes after the connection was closed or has failed.
    pub fn on_message(&mut self, message: Incoming) -> (received: Received)
        ensures
            received.goes_on == !(message is Closed || message is Failed),
            match message {
                Incoming::Text(text) => {
                    &&& texts_view(received.payloads@) == payloads_of(old(self)@, text@)
                    &&& payloads_read_back(old(self)@, text@, texts_view(received.payloads@))
                    &&& final(self)@ == last_after(old(self)@, text@)
                },
                _ => received.payloads@.len() == 0 && final(self)@ == old(self)@,
            },
    {
        match message {
            Incoming::Text(text) => Received {
                payloads: self.receive(text.as_str()),
                goes_on: true,
            },
            Incoming::Other => Received { payloads: Vec::new(), goes_on: true },
            _ => Received { payloads: Vec::new(), goes_on: false },
        }
    }
}

/// The web app is never sent an empty transcript, nor the same one twice in a row.
pub proof fn law_no_empty_or_repeated_text(last: Seq<char>, texts: Seq<Seq<char>>)
    ensures
        ({
            let sent = worth_sending(last, texts);
            &&& forall|i: int| 0 <= i < sent.len() ==> (#[trigger] sent[i]).len() > 0
            &&& forall|i: int, j: int|
                0 <= i && j == i + 1 && j < sent.len() ==> #[trigger] sent[i] != #[trigger] sent[j]
            &&& sent.len() > 0 ==> sent.first() != last
        }),
    decreases texts.len(),
{
    if texts.len() > 0 {
        law_no_empty_or_repeated_text(last, texts.drop_last());
    }
}

/// The texts that go to the web app over all the reports of a connection.
pub open spec fn all_selected(last: Seq<char>, reports: Seq<ReportView>) -> Seq<Seq<char>>
    decreases reports.len(),
{
    if reports.len() == 0 {
        seq![]
    } else {
        let before = all_selected(last, reports.drop_last());
        before + selected(newest(last, before), reports.last())
    }
}

/// Over a whole connection, whatever the service reports, the web app is never sent
/// an empty transcript, nor the same one twice in a row.
pub proof fn law_no_echo_over_a_connection(last: Seq<char>, reports: Seq<ReportView>)
    ensures
        ({
            let sent = all_selected(last, reports);
            &&& forall|i: int| 0 <= i < sent.len() ==> (#[trigger] sent[i]).len() > 0
            &&& forall|i: int, j: int|
                0 <= i && j == i + 1 && j < sent.len() ==> #[trigger] sent[i] != #[trigger] sent[j]
            &&& sent.len() > 0 ==> sent.first() != last
        }),
    decreases reports.len(),
{
    if reports.len() > 0 {
        law_no_echo_over_a_connection(last, reports.drop_last());
        let before = all_selected(last, reports.drop_last());
        let report = reports.last();
        law_no_empty_or_repeated_text(newest(last, before), report.texts);
        let more = selected(newest(last, before), report);
        let sent = all_selected(last, reports);
        assert forall|i: int, j: int|
            0 <= i && j == i + 1 && j < sent.len() implies #[trigger] sent[i] != #[trigger] sent[j] by {
            if j < before.len() {
                assert(sent[i] == before[i] && sent[j] == before[j]);
            } else if i >= before.len() {
                assert(sent[i] == more[i - before.len()] && sent[j] == more[j - before.len()]);
            } else {
                assert(sent[i] == before.last() && sent[j] == more.first());
            }
        }
    }
}

/// Everything that the web app is sent was proposed.
pub proof fn law_only_proposals_are_sent(last: Seq<char>, texts: Seq<Seq<char>>)
    ensures
        forall|i: int|
            0 <= i < worth_sending(last, texts).len() ==> texts.contains(
                #[trigger] worth_sending(last, texts)[i],
            ),
    decreases texts.len(),
{
    if texts.len() > 0 {
        let fewer = texts.drop_last();
        law_only_proposals_are_sent(last, fewer);
        let sent = worth_sending(last, texts);
        assert forall|i: int| 0 <= i < sent.len() implies texts.contains(#[trigger] sent[i]) by {
            if i < worth_sending(last, fewer).len() {
                let text = worth_sending(last, fewer)[i];
                let k = choose|k: int| 0 <= k < fewer.len() && fewer[k] == text;
                assert(texts[k] == text);
            } else {
                assert(texts[texts.len() - 1] == sent[i]);
            }
        }
    }
}

/// Nothing new is held back: transcripts that are not empty and differ each from
/// the one before are all sent, in order.
pub proof fn law_new_texts_are_all_sent(last: Seq<char>, texts: Seq<Seq<char>>)
    requires
        forall|i: int| 0 <= i < texts.len() ==> (#[trigger] texts[i]).len() > 0,
        forall|i: int, j: int|
            0 <= i && j == i + 1 && j < texts.len() ==> #[trigger] texts[i] != #[trigger] texts[j],
        texts.len() > 0 ==> texts.first() != last,
    ensures
        worth_sending(last, texts) == texts,
    decreases texts.len(),
{
    if texts.len() > 0 {
        let fewer = texts.drop_last();
        law_new_texts_are_all_sent(last, fewer);
        if fewer.len() > 0 {
            assert(fewer.last() == texts[texts.len() - 2]);
            assert(texts[texts.len() - 2] != texts[texts.len() - 1]);
        }
        assert(worth_sending(last, texts) =~= texts);
    }
}

/// A message with one transcript that comes again is not sent again.
pub proof fn law_second_hearing_is_silent(last: Seq<char>, text: Seq<char>)
    ensures
        worth_sending(newest(last, worth_sending(last, seq![text])), seq![text])
            == Seq::<Seq<char>>::empty(),
{
    let one = seq![text];
    assert(one.drop_last() =~= Seq::<Seq<char>>::empty());
    assert(one.last() == text);
    reveal_with_fuel(worth_sending, 2);
}

/// What is not final is not sent, and is forgotten.
pub proof fn law_interim_reports_are_dropped(last: Seq<char>, report: ReportView)
    requires
        !report.is_final,
    ensures
        transcripts_of(last, report) == Seq::<TranscriptView>::empty(),
        newest(last, selected(last, report)) == last,
{
    assert(transcripts_of(last, report) =~= Seq::<TranscriptView>::empty());
}

/// Transcripts are sent without white space around them.
pub proof fn law_texts_are_trimmed(last: Seq<char>, json: Json, i: int)
    requires
        0 <= i < transcripts_of(last, report_of(json)).len(),
    ensures
        ({
            let text = transcripts_of(last, report_of(json))[i].text;
            trimmed(text) == text
        }),
{
    let report = report_of(json);
    let text = transcripts_of(last, report)[i].text;
    law_only_proposals_are_sent(last, report.texts);
    assert(text == worth_sending(last, report.texts)[i]);
    let k = choose|k: int| 0 <= k < report.texts.len() && report.texts[k] == text;
    match json.at("channel"@).at("alternatives"@).elements() {
        Some(alternatives) => {
            match alternatives[k].at("transcript"@).text() {
                Some(raw) => law_trimming_is_final(raw),
                None => {},
            }
        },
        None => {},
    }
}

} // verus!
