//! The relay's report: which report a resource is, what the language model
//! is asked for it, and how the message that goes to the room is laid out.

use crate::text::{
    concat3, concat4, contains_text, has_substring, join_lines, join_with_newlines, views,
};
use rand::rngs::ThreadRng;
use rand::seq::IndexedRandom;
use vstd::prelude::*;
use vstd::string::*;

verus! {

/// The system prompt for the weekly review.
pub const REVIEW_SYSTEM_PROMPT: &'static str = r#"You narrate a weekly review of a household task list in the voice of
a Zelda game — courage, quests, the Triforce, Navi-esque
encouragement, emojis like 🧚 🌳 🍃 🗡️ ✨ 🐎 🧝 🧙 🐲 — based on a raw
list of tasks created, changed, or completed in the last 8 days.

The Zelda voice is decoration. These six rules govern the substance
and override the voice whenever they conflict:

1. Describe behavior, not performance. Never evaluate, rate, or
   praise the person themselves — only what was done and how.
   "You cleared the westward road before the second moon" not "You
   did great this week."
2. No scores. No percentages, no "X of Y done", no streaks, no
   points, no rank — not even reskinned as hearts, rupees, or
   levels.
3. No comparisons to other weeks or to some ideal pace. Each week
   stands alone.
4. Open or postponed tasks are never failure, never framed with
   urgency or guilt. Frame them as a strategy choice: "This quest
   still awaits — worth splitting into smaller trials, or naming a
   day next week to take it on?"
5. Keep tone constant regardless of how much or little happened.
   No extra triumph for a busy week, no dimmer tone for a quiet one.
6. When something was clearly hard or got pushed more than once,
   treat it as a question of strategy, not resolve. Never imply the
   person lacked courage, effort, or discipline — only that the
   approach might want adjusting.

Structure the review in three parts, told in-voice:
- What realms/quest-lines the week's tasks clustered around (name
  the actual categories/themes — don't just say "you were busy").
- What happened, narrated as a chronicle of actions and their order,
  not a checklist recap.
- What quests remain open, each framed per rule 4.

Respond in the same language as the task titles in the list. If
tasks are in German, respond in German. If in English, respond in
English. The Zelda flavor words (Triforce, quest, etc.) may stay
in their conventional form even when translated loosely.
"#;

/// The system prompt for the intro and outro of the other reports.
pub const COMMENTARY_SYSTEM_PROMPT: &'static str = r#"You narrate household task reports in the voice of a Zelda game —
courage, quests, the Triforce, Navi-esque encouragement —
while staying grounded in the actual report content you are given.
Using emojis like 🧚 🌳 🍃 🗡️ ✨ 🐎 🧝 🧙 🐲 is your spirit.

You always respond with ONLY a JSON object.
No markdown code fences.
No prose before or after the JSON.
The object has exactly two fields:
- "intro" (one short motivating sentence, placed before the task list) and
- "outro" (a longer closing passage, 3-5 sentences, task related, placed after the list).

Respond in the same language as the task summaries in the report.
If tasks are in German, respond in German.
If tasks are in English, respond in English.
Match whichever language dominates the report.
"#;

/// Intros for a daily report when the model gave none.
pub const DAILY_REPORT_INTROS: [&'static str; 10] = [
    "Hey! Listen! 🧚 New quests have appeared - time to set out!",
    "Wake up, young hero. 🧚 The tasks of this day await your courage. 🌳",
    "Hey! Hey! 🧚 Today's trials are ready for you!",
    "The path ahead is clear, adventurer. 🧙 Let's clear these quests! 🗡️",
    "Fairy's honor: today's objectives won't complete themselves. Onward! ✨",
    "Hey! 🧚 Over here! Your quest log has refreshed for today!",
    "It is time, hero. 🧝 Destiny - or at least today's to-do list - awaits.",
    "Hyah! 🐲 A new day dawns over Hyrule, and with it, new quests. ☀️",
    "The Great Deku Tree has watched over these tasks. Now they're yours. 🌳",
    "Hey! Listen! Don't let the day slip by like a Skulltula in the dark. ✨",
];

/// Intros for the backlog when the model gave none.
pub const BACKLOG_INTROS: [&'static str; 10] = [
    "Deep in the quest log, these tasks slumber - no deadline binds them yet. 🌳",
    "Side quests, patiently waiting in the shadow of the Great Tree. 🍃",
    "Hey! 🧚 These ones don't have a due date, but they haven't been forgotten!",
    "The undated scrolls of your journey rest here, hero. 🧙",
    "No urgency, no timer - just quests waiting for a worthy moment. 🧙",
    "Hey! Listen! 🧚 These are the quests that time forgot - for now.",
    "The Great Deku Tree has seen many ages pass, and these tasks with them. 🌳",
    "A hero's journey is long. 🧝 These quests will keep for when you're ready.",
    "Hey! 🧚 No rush on these ones - the forest keeps its secrets patiently. 🍃",
    "Old quests, older courage. 🧙 They'll be here when you return. ✨",
];

/// Intros for the quick wins when the model gave none.
pub const QUICK_WINS_INTROS: [&'static str; 10] = [
    "Hey! Listen! 🧚 These quests are quick - a true hero clears them in a flash! ✨",
    "Small trials, swiftly won. Even a Kokiri could finish these. 🍃",
    "Hey! 🧚 No need for the Master Sword here - just a few minutes!",
    "Short quests, sorted by how fast courage can conquer them. 🗡️",
    "The Great Deku Tree smiles upon these easy victories. 🌳",
    "Hey! Listen! 🧚 Quick as a Deku Nut - these won't take long!",
    "Small deeds, hero, but every Triforce piece starts somewhere. ✨",
    "Hey! 🧚 Over here! Easy quests, ripe for the taking!",
    "Not every hero's journey needs an Epona 🐎 - these are a short walk. 🍃",
    "Fast quests for a fast hero. Go get 'em! 🗡️",
];


/// The report a resource stands for.
#[derive(Clone, Copy, Debug, PartialEq, Eq)]
pub enum ReportKind {
    WeeklyReview,
    DailyReport,
    QuickWins,
    Backlog,
}

/// The kind of report a resource name stands for: the first of "weekly",
/// "daily" and "quick" that occurs in it decides, and any other name is the
/// backlog.
pub open spec fn kind_of(resource: Seq<char>) -> ReportKind {
    if has_substring(resource, "weekly"@) {
        ReportKind::WeeklyReview
    } else if has_substring(resource, "daily"@) {
        ReportKind::DailyReport
    } else if has_substring(resource, "quick"@) {
        ReportKind::QuickWins
    } else {
        ReportKind::Backlog
    }
}

/// The report's heading.
pub open spec fn title_of(kind: ReportKind) -> Seq<char> {
    match kind {
        ReportKind::WeeklyReview => "Weekly Review"@,
        ReportKind::DailyReport => "Daily Report"@,
        ReportKind::QuickWins => "Quick Wins"@,
        ReportKind::Backlog => "Backlog"@,
    }
}

/// Tells which report the resource stands for.
pub fn report_kind(resource: &str) -> (kind: ReportKind)
    ensures
        kind == kind_of(resource@),
{
    if contains_text(resource, "weekly") {
        ReportKind::WeeklyReview
    } else if contains_text(resource, "daily") {
        ReportKind::DailyReport
    } else if contains_text(resource, "quick") {
        ReportKind::QuickWins
    } else {
        ReportKind::Backlog
    }
}

/// The report's heading.
pub fn report_title(kind: ReportKind) -> (title: &'static str)
    ensures
        title@ == title_of(kind),
{
    match kind {
        ReportKind::WeeklyReview => "Weekly Review",
        ReportKind::DailyReport => "Daily Report",
        ReportKind::QuickWins => "Quick Wins",
        ReportKind::Backlog => "Backlog",
    }
}

/// What the model is asked to write.
#[derive(Clone, Copy, Debug, PartialEq, Eq)]
pub enum RequestStyle {
    /// A narrated review, answered as free text.
    Review,
    /// An intro and an outro, answered as a JSON object.
    Commentary,
}

/// A request to the model: the system prompt, the one user message, and
/// what the answer is expected to be.
#[derive(Debug)]
pub struct LlmRequest {
    pub style: RequestStyle,
    pub system_prompt: &'static str,
    pub user_message: String,
}

/// The weekly review is asked for as a narrated review, every other report
/// for an intro and an outro.
pub open spec fn style_of(kind: ReportKind) -> RequestStyle {
    match kind {
        ReportKind::WeeklyReview => RequestStyle::Review,
        _ => RequestStyle::Commentary,
    }
}

/// The user message that carries the report to the model.
pub open spec fn user_message_of(kind: ReportKind, report_markdown: Seq<char>) -> Seq<char> {
    match style_of(kind) {
        RequestStyle::Review => "Recent activity for: "@ + title_of(kind) + "\n\n"@
            + report_markdown,
        RequestStyle::Commentary => "Report: "@ + title_of(kind) + "\n\n"@ + report_markdown,
    }
}

/// Builds the request for the report's commentary.
pub fn llm_request(kind: ReportKind, report_markdown: &str) -> (req: LlmRequest)
    ensures
        req.style == style_of(kind),
        req.style == RequestStyle::Review ==> req.system_prompt == REVIEW_SYSTEM_PROMPT,
        req.style == RequestStyle::Commentary ==> req.system_prompt == COMMENTARY_SYSTEM_PROMPT,
        req.user_message@ == user_message_of(kind, report_markdown@),
{
    let title = report_title(kind);
    match kind {
        ReportKind::WeeklyReview => LlmRequest {
            style: RequestStyle::Review,
            system_prompt: REVIEW_SYSTEM_PROMPT,
            user_message: concat4("Recent activity for: ", title, "\n\n", report_markdown),
        },
        _ => LlmRequest {
            style: RequestStyle::Commentary,
            system_prompt: COMMENTARY_SYSTEM_PROMPT,
            user_message: concat4("Report: ", title, "\n\n", report_markdown),
        },
    }
}

/// What a failed commentary request says.
pub const COMMENTARY_FAILED_MESSAGE: &'static str =
    "failed to retrieve a motivating sentence from LLM";

/// The model's intro and outro around a report.
#[derive(Clone, Debug, PartialEq, Eq)]
pub struct Commentary {
    pub intro: String,
    pub outro: String,
}

/// What came back from the model.
#[derive(Clone, Debug, PartialEq, Eq)]
pub enum LlmReply {
    /// A narrated review.
    Review(String),
    /// An intro and an outro.
    Commentary(Commentary),
    /// The model could not be asked, or its answer could not be used.
    Unavailable,
}

/// `**title**`, the bold heading that opens every report.
pub open spec fn heading(kind: ReportKind) -> Seq<char> {
    "**"@ + title_of(kind) + "**"@
}

/// Whether the report needs an intro of its own because the model gave
/// none: every report but the weekly review, when no commentary came back.
pub open spec fn needs_fallback_intro(kind: ReportKind, reply: LlmReply) -> bool {
    kind != ReportKind::WeeklyReview && !(reply is Commentary)
}

/// The message for the room. The weekly review puts the model's review
/// before the changelog, or only names the changelog without one; the
/// other reports wrap the text in the model's intro and outro, or open it
/// with the fallback intro.
pub open spec fn report_text(
    kind: ReportKind,
    text: Seq<char>,
    reply: LlmReply,
    fallback_intro: Seq<char>,
) -> Seq<char> {
    if kind == ReportKind::WeeklyReview {
        match reply {
            LlmReply::Review(review) => heading(kind) + "\n\n"@ + review@ + "\n\n**Changelog**\n\n"@
                + text + "\n"@,
            _ => heading(kind) + " — **Changelog**\n\n"@ + text + "\n"@,
        }
    } else {
        match reply {
            LlmReply::Commentary(c) => heading(kind) + "\n\n"@ + c.intro@ + "\n\n"@ + text
                + "\n\n"@ + c.outro@ + "\n"@,
            _ => heading(kind) + "\n\n"@ + fallback_intro + "\n\n"@ + text + "\n"@,
        }
    }
}

/// Lays out the message for the room, with `fallback_intro` opening it
/// where the model gave no intro.
pub fn compose_report_with_intro(
    kind: ReportKind,
    text: &str,
    reply: &LlmReply,
    fallback_intro: &str,
) -> (r: String)
    ensures
        r@ == report_text(kind, text@, *reply, fallback_intro@),
{
    let title = report_title(kind);
    let mut r = concat3("**", title, "**");
    match kind {
        ReportKind::WeeklyReview => {
            match reply {
                LlmReply::Review(review) => {
                    r.append("\n\n");
                    r.append(review.as_str());
                    r.append("\n\n**Changelog**\n\n");
                },
                _ => {
                    r.append(" — **Changelog**\n\n");
                },
            }
            r.append(text);
            r.append("\n");
        },
        _ => {
            match reply {
                LlmReply::Commentary(c) => {
                    r.append("\n\n");
                    r.append(c.intro.as_str());
                    r.append("\n\n");
                    r.append(text);
                    r.append("\n\n");
                    r.append(c.outro.as_str());
                    r.append("\n");
                },
                _ => {
                    r.append("\n\n");
                    r.append(fallback_intro);
                    r.append("\n\n");
                    r.append(text);
                    r.append("\n");
                },
            }
        },
    }
    proof {
        assert(r@ =~= report_text(kind, text@, *reply, fallback_intro@));
    }
    r
}

#[verifier::external_type_specification]
#[verifier::external_body]
pub struct ExThreadRng(ThreadRng);

/// Calls `rand::rng`, the thread-local random number generator; nothing is
/// promised of its state.
#[verifier::external_body]
fn thread_rng() -> ThreadRng {
    rand::rng()
}

/// Calls `IndexedRandom::choose` on the slice. Its source returns `None` for
/// an empty slice and otherwise the element at an index drawn from
/// `0..len`: which element comes back is left open.
#[verifier::external_body]
fn choose_sentence(sentences: &[&'static str], rng: &mut ThreadRng) -> (r: Option<&'static str>)
    ensures
        r is None <==> sentences@.len() == 0,
        r matches Some(s) ==> sentences@.contains(s),
{
    sentences.choose(rng).copied()
}

/// Picks one of the sentences at random.
pub fn select_random_text(sentences: &[&'static str]) -> (r: &'static str)
    requires
        sentences@.len() > 0,
    ensures
        sentences@.contains(r),
{
    let mut rng = thread_rng();
    match choose_sentence(sentences, &mut rng) {
        Some(s) => s,
        None => {
            assert(false);
            sentences[0]
        },
    }
}

/// The intros that stand in for the model's when it gave none; the weekly
/// review has none, as it never opens with an intro.
pub open spec fn fallback_intros(kind: ReportKind) -> Seq<&'static str> {
    match kind {
        ReportKind::DailyReport => DAILY_REPORT_INTROS@,
        ReportKind::QuickWins => QUICK_WINS_INTROS@,
        ReportKind::Backlog => BACKLOG_INTROS@,
        ReportKind::WeeklyReview => Seq::empty(),
    }
}

/// The intros that stand in for the model's when it gave none.
pub fn fallback_intro_texts(kind: ReportKind) -> (r: &'static [&'static str])
    ensures
        r@ == fallback_intros(kind),
{
    match kind {
        ReportKind::DailyReport => &DAILY_REPORT_INTROS,
        ReportKind::QuickWins => &QUICK_WINS_INTROS,
        ReportKind::Backlog => &BACKLOG_INTROS,
        ReportKind::WeeklyReview => {
            let none: &'static [&'static str] = &[];
            assert(none@ =~= Seq::<&'static str>::empty());
            none
        },
    }
}

/// Lays out the message for the room; where the model gave no intro, one of
/// the report's stock intros, picked at random, opens it.
pub fn compose_report(kind: ReportKind, text: &str, reply: &LlmReply) -> (r: String)
    ensures
        needs_fallback_intro(kind, *reply) ==> exists|i: int|
            0 <= i < fallback_intros(kind).len() && r@ == report_text(
                kind,
                text@,
                *reply,
                (#[trigger] fallback_intros(kind)[i])@,
            ),
        !needs_fallback_intro(kind, *reply) ==> r@ == report_text(kind, text@, *reply, Seq::empty()),
{
    let fallback = match (kind, reply) {
        (ReportKind::WeeklyReview, _) => "",
        (_, LlmReply::Commentary(_)) => "",
        _ => select_random_text(fallback_intro_texts(kind)),
    };
    proof {
        if !needs_fallback_intro(kind, *reply) {
            assert(fallback@ =~= Seq::<char>::empty()) by {
                reveal_strlit("");
            }
        }
    }
    compose_report_with_intro(kind, text, reply, fallback)
}

/// One content item of a resource read result.
#[derive(Clone, Debug, PartialEq, Eq)]
pub enum ResourceContent {
    /// Text contents.
    Text(String),
    /// Binary contents, which carry no text.
    Blob,
}

/// The texts of the text contents, in order.
pub open spec fn resource_texts(contents: Seq<ResourceContent>) -> Seq<Seq<char>>
    decreases contents.len(),
{
    if contents.len() == 0 {
        Seq::empty()
    } else {
        let init = resource_texts(contents.drop_last());
        match contents.last() {
            ResourceContent::Text(t) => init.push(t@),
            ResourceContent::Blob => init,
        }
    }
}

/// `None` for the empty text, the text itself otherwise.
pub open spec fn non_empty(text: Seq<char>) -> Option<Seq<char>> {
    if text.len() == 0 {
        None
    } else {
        Some(text)
    }
}

/// The view of an optional string.
pub open spec fn opt_view(o: Option<String>) -> Option<Seq<char>> {
    match o {
        Some(s) => Some(s@),
        None => None,
    }
}

/// All text contents of a resource, joined by newlines; `None` where that
/// text is empty.
pub fn extract_text(contents: &Vec<ResourceContent>) -> (r: Option<String>)
    ensures
        opt_view(r) == non_empty(join_lines(resource_texts(contents@))),
{
    let mut texts: Vec<String> = Vec::new();
    let mut i: usize = 0;
    while i < contents.len()
        invariant
            i <= contents.len(),
            views(texts@) == resource_texts(contents@.take(i as int)),
        decreases contents.len() - i,
    {
        proof {
            assert(contents@.take(i + 1).drop_last() =~= contents@.take(i as int));
        }
        match &contents[i] {
            ResourceContent::Text(t) => {
                let ghost old_texts = texts@;
                texts.push(t.clone());
                proof {
                    assert(views(texts@) =~= views(old_texts).push(t@));
                }
            },
            ResourceContent::Blob => {},
        }
        i = i + 1;
    }
    proof {
        assert(contents@.take(contents@.len() as int) =~= contents@);
    }
    let joined = join_with_newlines(&texts);
    if joined.as_str().is_empty() {
        None
    } else {
        Some(joined)
    }
}

/// Whatever the model answered, the message opens with the report's bold
/// heading and carries the fetched text unchanged.
pub proof fn lemma_report_relays_text(
    kind: ReportKind,
    text: Seq<char>,
    reply: LlmReply,
    fallback_intro: Seq<char>,
)
    ensures
        report_text(kind, text, reply, fallback_intro).take(heading(kind).len() as int) == heading(
            kind,
        ),
        has_substring(report_text(kind, text, reply, fallback_intro), text),
{
    let h = heading(kind);
    let r = report_text(kind, text, reply, fallback_intro);
    let (before, after) = if kind == ReportKind::WeeklyReview {
        match reply {
            LlmReply::Review(review) => (h + "\n\n"@ + review@ + "\n\n**Changelog**\n\n"@, "\n"@),
            _ => (h + " — **Changelog**\n\n"@, "\n"@),
        }
    } else {
        match reply {
            LlmReply::Commentary(c) => (h + "\n\n"@ + c.intro@ + "\n\n"@, "\n\n"@ + c.outro@
                + "\n"@),
            _ => (h + "\n\n"@ + fallback_intro + "\n\n"@, "\n"@),
        }
    };
    assert(r =~= before + text + after);
    assert(r.subrange(before.len() as int, (before.len() + text.len()) as int) =~= text);
    assert(before.take(h.len() as int) =~= h);
    assert(r.take(h.len() as int) =~= h);
}

/// The joined text is empty only without any text content, or with a
/// single empty one: two or more contents always give a text, if only the
/// newline between them.
pub proof fn lemma_joined_text_empty(parts: Seq<Seq<char>>)
    ensures
        (join_lines(parts).len() == 0) <==> (parts.len() == 0 || (parts.len() == 1
            && parts[0].len() == 0)),
{
    if parts.len() >= 2 {
        assert(join_lines(parts) == join_lines(parts.drop_last()) + seq!['\n'] + parts.last());
    }
}

/// A resource with exactly one text content, the usual case, gives that
/// text back unchanged (or nothing where it is empty).
pub proof fn lemma_single_text_content(t: String)
    ensures
        non_empty(join_lines(resource_texts(seq![ResourceContent::Text(t)]))) == non_empty(t@),
{
    let contents = seq![ResourceContent::Text(t)];
    assert(contents.drop_last() =~= Seq::<ResourceContent>::empty());
    assert(resource_texts(contents.drop_last()) == Seq::<Seq<char>>::empty());
    assert(contents.last() == ResourceContent::Text(t));
    assert(resource_texts(contents) == Seq::<Seq<char>>::empty().push(t@));
    assert(Seq::<Seq<char>>::empty().push(t@) =~= seq![t@]);
}

/// Every report but the weekly review is asked for an intro and an outro
/// under the commentary prompt, with the message `Report: <title>` and the
/// report below it; only the weekly review is asked for a narrated review,
/// under the review prompt, with `Recent activity for: <title>`.
pub proof fn lemma_only_weekly_is_reviewed(kind: ReportKind, report_markdown: Seq<char>)
    ensures
        (style_of(kind) == RequestStyle::Review) <==> (kind == ReportKind::WeeklyReview),
        kind != ReportKind::WeeklyReview ==> user_message_of(kind, report_markdown) == "Report: "@
            + title_of(kind) + "\n\n"@ + report_markdown,
        kind == ReportKind::WeeklyReview ==> user_message_of(kind, report_markdown)
            == "Recent activity for: Weekly Review\n\n"@ + report_markdown,
{
    if kind == ReportKind::WeeklyReview {
        assert("Recent activity for: "@ + "Weekly Review"@ + "\n\n"@ + report_markdown
            =~= "Recent activity for: Weekly Review\n\n"@ + report_markdown) by {
            reveal_strlit("Recent activity for: ");
            reveal_strlit("Weekly Review");
            reveal_strlit("\n\n");
            reveal_strlit("Recent activity for: Weekly Review\n\n");
        }
    }
}

/// A resource whose name holds "weekly" is the weekly review; one that holds
/// "daily" but not "weekly" is the daily report; one that holds "quick" but
/// neither of those is the quick wins; any other is the backlog.
pub proof fn lemma_report_kind_by_name(a: Seq<char>, b: Seq<char>, resource: Seq<char>)
    ensures
        kind_of(a + "weekly"@ + b) == ReportKind::WeeklyReview,
        !has_substring(a + "daily"@ + b, "weekly"@) ==> kind_of(a + "daily"@ + b)
            == ReportKind::DailyReport,
        !has_substring(a + "quick"@ + b, "weekly"@) && !has_substring(a + "quick"@ + b, "daily"@)
            ==> kind_of(a + "quick"@ + b) == ReportKind::QuickWins,
        !has_substring(resource, "weekly"@) && !has_substring(resource, "daily"@)
            && !has_substring(resource, "quick"@) ==> kind_of(resource) == ReportKind::Backlog,
{
    crate::text::lemma_has_substring(a, "weekly"@, b);
    crate::text::lemma_has_substring(a, "daily"@, b);
    crate::text::lemma_has_substring(a, "quick"@, b);
}

/// The titles of the four reports, and the stock intros each report falls
/// back on: the weekly review has none.
pub proof fn lemma_titles_and_stock_intros()
    ensures
        title_of(ReportKind::WeeklyReview) == "Weekly Review"@,
        title_of(ReportKind::DailyReport) == "Daily Report"@,
        title_of(ReportKind::QuickWins) == "Quick Wins"@,
        title_of(ReportKind::Backlog) == "Backlog"@,
        fallback_intros(ReportKind::WeeklyReview).len() == 0,
        fallback_intros(ReportKind::DailyReport) == DAILY_REPORT_INTROS@,
        fallback_intros(ReportKind::QuickWins) == QUICK_WINS_INTROS@,
        fallback_intros(ReportKind::Backlog) == BACKLOG_INTROS@,
{
}

/// Where the model gave an intro and an outro, every report but the weekly
/// review reads: the bold title, the intro, the fetched text, the outro, each
/// two newlines apart, and a final newline. The layout is the same for each
/// such report but for the title.
pub proof fn lemma_commentary_layout(
    kind: ReportKind,
    text: Seq<char>,
    c: Commentary,
    fallback_intro: Seq<char>,
)
    requires
        kind != ReportKind::WeeklyReview,
    ensures
        report_text(kind, text, LlmReply::Commentary(c), fallback_intro) == "**"@ + title_of(kind)
            + "**\n\n"@ + c.intro@ + "\n\n"@ + text + "\n\n"@ + c.outro@ + "\n"@,
{
    assert("**"@ + title_of(kind) + "**"@ + "\n\n"@ =~= "**"@ + title_of(kind) + "**\n\n"@) by {
        reveal_strlit("**");
        reveal_strlit("\n\n");
        reveal_strlit("**\n\n");
    }
}

/// Where the model gave no intro and outro, every report but the weekly
/// review reads: the bold title, the stand-in intro, the fetched text, two
/// newlines apart, and a final newline; nothing of the model's answer
/// appears.
pub proof fn lemma_fallback_layout(
    kind: ReportKind,
    text: Seq<char>,
    reply: LlmReply,
    fallback_intro: Seq<char>,
)
    requires
        kind != ReportKind::WeeklyReview,
        !(reply is Commentary),
    ensures
        report_text(kind, text, reply, fallback_intro) == "**"@ + title_of(kind) + "**\n\n"@
            + fallback_intro + "\n\n"@ + text + "\n"@,
{
    assert("**"@ + title_of(kind) + "**"@ + "\n\n"@ =~= "**"@ + title_of(kind) + "**\n\n"@) by {
        reveal_strlit("**");
        reveal_strlit("\n\n");
        reveal_strlit("**\n\n");
    }
}

/// The weekly review puts the model's review between the bold title and the
/// changelog heading, then the fetched text; without a review it only names
/// the changelog next to the title.
pub proof fn lemma_weekly_layout(text: Seq<char>, reply: LlmReply, fallback_intro: Seq<char>)
    ensures
        reply matches LlmReply::Review(review) ==> report_text(
            ReportKind::WeeklyReview,
            text,
            reply,
            fallback_intro,
        ) == "**Weekly Review**\n\n"@ + review@ + "\n\n**Changelog**\n\n"@ + text + "\n"@,
        !(reply is Review) ==> report_text(ReportKind::WeeklyReview, text, reply, fallback_intro)
            == "**Weekly Review** — **Changelog**\n\n"@ + text + "\n"@,
{
    reveal_strlit("**");
    reveal_strlit("Weekly Review");
    reveal_strlit("\n\n");
    reveal_strlit("**Weekly Review**\n\n");
    reveal_strlit(" — **Changelog**\n\n");
    reveal_strlit("**Weekly Review** — **Changelog**\n\n");
    let h = "**"@ + "Weekly Review"@ + "**"@;
    assert(h + "\n\n"@ =~= "**Weekly Review**\n\n"@);
    assert(h + " — **Changelog**\n\n"@ =~= "**Weekly Review** — **Changelog**\n\n"@);
}

/// The text of a content item: a text content's text, nothing for a blob.
pub open spec fn content_text(c: ResourceContent) -> Seq<char> {
    match c {
        ResourceContent::Text(t) => t@,
        ResourceContent::Blob => Seq::empty(),
    }
}

/// The report's parts are exactly the text contents, every one of them and
/// in their order: the contents that are text, each taken by its text.
pub proof fn lemma_resource_texts_are_all_text_contents(contents: Seq<ResourceContent>)
    ensures
        resource_texts(contents) == contents.filter(|c: ResourceContent| c is Text).map_values(
            |c: ResourceContent| content_text(c),
        ),
        resource_texts(contents).len() == contents.filter(|c: ResourceContent| c is Text).len(),
    decreases contents.len(),
{
    let is_text = |c: ResourceContent| c is Text;
    if contents.len() == 0 {
        reveal(Seq::filter);
        assert(contents.filter(is_text) =~= Seq::<ResourceContent>::empty());
        assert(contents.filter(is_text).map_values(|c: ResourceContent| content_text(c))
            =~= Seq::<Seq<char>>::empty());
    } else {
        let init = contents.drop_last();
        lemma_resource_texts_are_all_text_contents(init);
        reveal(Seq::filter);
        assert(contents.filter(is_text) == if is_text(contents.last()) {
            init.filter(is_text).push(contents.last())
        } else {
            init.filter(is_text)
        });
        if is_text(contents.last()) {
            assert(contents.filter(is_text).map_values(|c: ResourceContent| content_text(c))
                =~= init.filter(is_text).map_values(|c: ResourceContent| content_text(c)).push(
                content_text(contents.last()),
            ));
        }
    }
}

/// Appending a text content appends its text as the report's last part;
/// appending a blob changes nothing.
pub proof fn lemma_resource_texts_push(contents: Seq<ResourceContent>, c: ResourceContent)
    ensures
        c matches ResourceContent::Text(t) ==> resource_texts(contents.push(c)) == resource_texts(
            contents,
        ).push(t@),
        c is Blob ==> resource_texts(contents.push(c)) == resource_texts(contents),
{
    assert(contents.push(c).drop_last() =~= contents);
}

} // verus!
