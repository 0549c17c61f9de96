use vstd::prelude::*;

use crate::strutil::str_eq;

verus! {

/// One module of a content item: the smallest unit the remote either
/// grades or merely displays. Its type decides which of the two it is.
pub struct ContentModule {
    pub id: String,
    pub module_type: String,
}

/// One unit of courseware content: an identifier, an optional content-type
/// tag, display tags, and an ordered list of modules.
pub struct ContentItem {
    pub id: String,
    pub content_type: Option<String>,
    pub tags: Vec<String>,
    pub modules: Vec<ContentModule>,
}

/// The answer stub carried by one module report: omitted for passive
/// modules, an empty list for `toggles` questions, an empty object for
/// every other question.
pub enum AnswerStub {
    Omitted,
    EmptyObject,
    EmptyList,
}

/// One fabricated per-module record of a session report.
pub struct ModuleReport {
    pub session_id: String,
    pub module_order: usize,
    pub module_id: String,
    pub module_type: String,
    pub time_started: String,
    pub time_finished: String,
    pub gave_up: bool,
    pub submitted: bool,
    pub completed: bool,
    pub testing_active: bool,
    pub score: u64,
    pub module_score: Option<u64>,
    pub user_answer: AnswerStub,
    pub course_id: String,
    pub section_id: String,
    pub content_id: String,
}

/// The session-wide part of a fabricated report.
pub struct SessionMeta {
    pub session_id: String,
    pub course_id: String,
    pub time_started: String,
    pub time_finished: String,
    pub starting_proficiency: u64,
    pub session_score: u64,
    pub completed: bool,
    pub modules_correct: usize,
    pub modules_incorrect: usize,
    pub modules_gave_up: usize,
    pub modules_studied: usize,
    pub modules_tested: usize,
    pub average_score: u64,
    pub session_type: String,
    pub section_ids: Vec<String>,
    pub content_ids: Vec<String>,
    pub has_hardest_question_content: bool,
}

/// One fabricated completion record for one content item, sent once and
/// discarded.
pub struct SessionReport {
    pub platform: String,
    pub client_version: String,
    pub user_id: String,
    pub user_level_feature_flag_value: String,
    pub session: SessionMeta,
    pub modules: Vec<ModuleReport>,
}

/// The module types treated as passive rather than gradable: their
/// reports omit the score fields, and the session's correct and tested
/// counters leave them out.
pub open spec fn is_non_question_type(t: Seq<char>) -> bool {
    ||| t == "concept"@
    ||| t == "video"@
    ||| t == "image"@
    ||| t == "delve"@
}

/// Decides whether a module type is one of the passive, non-question
/// kinds.
pub fn non_question_type(t: &str) -> (r: bool)
    ensures
        r == is_non_question_type(t@),
{
    str_eq(t, "concept") || str_eq(t, "video") || str_eq(t, "image") || str_eq(t, "delve")
}

/// How many of the listed modules are passive, non-question modules.
pub open spec fn count_non_questions(ms: Seq<ContentModule>) -> int
    decreases ms.len(),
{
    if ms.len() == 0 {
        0
    } else {
        count_non_questions(ms.drop_last()) + if is_non_question_type(ms.last().module_type@) {
            1int
        } else {
            0int
        }
    }
}

pub proof fn lemma_count_non_questions_bounds(ms: Seq<ContentModule>)
    ensures
        0 <= count_non_questions(ms) <= ms.len(),
    decreases ms.len(),
{
    if ms.len() > 0 {
        lemma_count_non_questions_bounds(ms.drop_last());
    }
}

/// How one module report must read for the module `cm`, standing at
/// `order` within the content item and spanning the boundaries `started`
/// and `finished`: a passive module is marked unsubmitted and inactive
/// with score zero and no score or answer fields; a question is marked
/// submitted and active with a full score, its answer stub an empty list
/// for `toggles` and an empty object otherwise.
pub open spec fn module_report_matches(
    m: ModuleReport,
    order: int,
    cm: ContentModule,
    session_id: Seq<char>,
    course_id: Seq<char>,
    section_id: Seq<char>,
    content_id: Seq<char>,
    started: Seq<char>,
    finished: Seq<char>,
) -> bool {
    &&& m.session_id@ == session_id
    &&& m.module_order == order
    &&& m.module_id@ == cm.id@
    &&& m.module_type@ == cm.module_type@
    &&& m.time_started@ == started
    &&& m.time_finished@ == finished
    &&& !m.gave_up
    &&& m.completed
    &&& m.course_id@ == course_id
    &&& m.section_id@ == section_id
    &&& m.content_id@ == content_id
    &&& if is_non_question_type(cm.module_type@) {
        &&& !m.submitted
        &&& !m.testing_active
        &&& m.score == 0
        &&& m.module_score is None
        &&& m.user_answer is Omitted
    } else {
        &&& m.submitted
        &&& m.testing_active
        &&& m.score == 1
        &&& m.module_score == Some(1u64)
        &&& if cm.module_type@ == "toggles"@ {
            m.user_answer is EmptyList
        } else {
            m.user_answer is EmptyObject
        }
    }
}

/// Builds the session report for one content item: one module report per
/// content module over the given schedule boundaries, and session counters
/// initialized to the module count with the correct and tested counters
/// lowered by exactly the number of passive modules.
pub fn build_session_report(
    user_id: &str,
    course_id: &str,
    section_id: &str,
    content: &ContentItem,
    session_id: &str,
    module_times: &Vec<String>,
) -> (r: SessionReport)
    requires
        module_times@.len() == content.modules@.len() + 1,
    ensures
        r.platform@ == "seneca"@,
        r.client_version@ == "2.13.81"@,
        r.user_id@ == user_id@,
        r.user_level_feature_flag_value@ == "control"@,
        r.session.session_id@ == session_id@,
        r.session.course_id@ == course_id@,
        r.session.time_started@ == module_times@[0]@,
        r.session.time_finished@ == module_times@[content.modules@.len() as int]@,
        r.session.starting_proficiency == 0,
        r.session.session_score == 1,
        r.session.completed,
        r.session.modules_correct == content.modules@.len() - count_non_questions(
            content.modules@,
        ),
        r.session.modules_tested == r.session.modules_correct,
        r.session.modules_incorrect == 0,
        r.session.modules_gave_up == 0,
        r.session.modules_studied == content.modules@.len(),
        r.session.average_score == 1,
        r.session.session_type@ == "adaptive"@,
        r.session.section_ids@.len() == 1,
        r.session.section_ids@[0]@ == section_id@,
        r.session.content_ids@.len() == 1,
        r.session.content_ids@[0]@ == content.id@,
        r.session.has_hardest_question_content == (content.content_type matches Some(t) && t@
            == "hardestQuestions"@),
        r.modules@.len() == content.modules@.len(),
        forall|i: int|
            0 <= i < r.modules@.len() ==> module_report_matches(
                #[trigger] r.modules@[i],
                i,
                content.modules@[i],
                session_id@,
                course_id@,
                section_id@,
                content.id@,
                module_times@[i]@,
                module_times@[i + 1]@,
            ),
{
    let len: usize = content.modules.len();
    let mut modules: Vec<ModuleReport> = Vec::new();
    let mut non_questions: usize = 0;
    let mut i: usize = 0;
    while i < len
        invariant
            i <= len,
            len == content.modules@.len(),
            module_times@.len() == len + 1,
            modules@.len() == i,
            non_questions == count_non_questions(content.modules@.take(i as int)),
            non_questions <= i,
            forall|j: int|
                0 <= j < i ==> module_report_matches(
                    #[trigger] modules@[j],
                    j,
                    content.modules@[j],
                    session_id@,
                    course_id@,
                    section_id@,
                    content.id@,
                    module_times@[j]@,
                    module_times@[j + 1]@,
                ),
        decreases len - i,
    {
        let cm = &content.modules[i];
        let nq = non_question_type(cm.module_type.as_str());
        let answer = if nq {
            AnswerStub::Omitted
        } else if str_eq(cm.module_type.as_str(), "toggles") {
            AnswerStub::EmptyList
        } else {
            AnswerStub::EmptyObject
        };
        let m = ModuleReport {
            session_id: String::from_str(session_id),
            module_order: i,
            module_id: cm.id.clone(),
            module_type: cm.module_type.clone(),
            time_started: module_times[i].clone(),
            time_finished: module_times[i + 1].clone(),
            gave_up: false,
            submitted: !nq,
            completed: true,
            testing_active: !nq,
            score: if nq { 0 } else { 1 },
            module_score: if nq { None } else { Some(1u64) },
            user_answer: answer,
            course_id: String::from_str(course_id),
            section_id: String::from_str(section_id),
            content_id: content.id.clone(),
        };
        modules.push(m);
        proof {
            let taken = content.modules@.take(i + 1);
            assert(taken.drop_last() =~= content.modules@.take(i as int));
            assert(taken.last() == content.modules@[i as int]);
        }
        if nq {
            non_questions = non_questions + 1;
        }
        i = i + 1;
    }
    proof {
        assert(content.modules@.take(len as int) =~= content.modules@);
        lemma_count_non_questions_bounds(content.modules@);
    }
    let counted: usize = len - non_questions;
    let session = SessionMeta {
        session_id: String::from_str(session_id),
        course_id: String::from_str(course_id),
        time_started: module_times[0].clone(),
        time_finished: module_times[len].clone(),
        starting_proficiency: 0,
        session_score: 1,
        completed: true,
        modules_correct: counted,
        modules_incorrect: 0,
        modules_gave_up: 0,
        modules_studied: len,
        modules_tested: counted,
        average_score: 1,
        session_type: String::from_str("adaptive"),
        section_ids: vec![String::from_str(section_id)],
        content_ids: vec![content.id.clone()],
        has_hardest_question_content: match &content.content_type {
            Some(t) => str_eq(t.as_str(), "hardestQuestions"),
            None => false,
        },
    };
    SessionReport {
        platform: String::from_str("seneca"),
        client_version: String::from_str("2.13.81"),
        user_id: String::from_str(user_id),
        user_level_feature_flag_value: String::from_str("control"),
        session,
        modules,
    }
}

} // verus!
