use vstd::prelude::*;

use crate::client::ClientError;
use crate::report::ContentItem;
use crate::strutil::{spaces, spec_spaces, str_eq};
use crate::times::{format_rfc2822, rfc2822_of, MAX_FORMAT_EPOCH, MIN_FORMAT_EPOCH};

verus! {

/// One remote-owned assignment, read-only to this system: its display
/// name and status, its start instant and due instant as epoch seconds
/// (the due instant keeping the offset it was written with), and the
/// course and sections it spans.
pub struct Assignment {
    pub name: String,
    pub status: String,
    pub start_epoch: i64,
    pub due_epoch: i64,
    pub due_offset_secs: i32,
    pub course_id: String,
    pub section_ids: Vec<String>,
}

impl Assignment {
    /// True where the due instant can be rendered: its offset strictly
    /// within one day and its local time within the years 0 through 9999,
    /// as holds of every instant the remote writes in its RFC 3339
    /// fields.
    pub open spec fn due_renderable(self) -> bool {
        &&& -86_399 <= self.due_offset_secs <= 86_399
        &&& MIN_FORMAT_EPOCH <= self.due_epoch + self.due_offset_secs <= MAX_FORMAT_EPOCH
    }
}

/// Keeps, in order, exactly the assignments that have started: those
/// whose start instant is not after `now`. An assignment starting in the
/// future is left out.
pub fn filter_started(assignments: Vec<Assignment>, now: i64) -> (r: Vec<Assignment>)
    ensures
        r@ == assignments@.filter(|a: Assignment| a.start_epoch <= now),
{
    let ghost all = assignments@;
    let ghost pred = |a: Assignment| a.start_epoch <= now;
    let mut rest = assignments;
    let total: usize = rest.len();
    let mut out: Vec<Assignment> = Vec::new();
    let mut i: usize = 0;
    while rest.len() > 0
        invariant
            total == all.len(),
            i + rest@.len() == all.len(),
            rest@ == all.skip(i as int),
            out@ == all.take(i as int).filter(pred),
            pred == (|a: Assignment| a.start_epoch <= now),
        decreases rest@.len(),
    {
        let a = rest.remove(0);
        proof {
            assert(a == all[i as int]);
            reveal(Seq::filter);
            assert(all.take(i + 1).drop_last() =~= all.take(i as int));
            assert(all.take(i + 1).last() == a);
            assert(rest@ =~= all.skip(i + 1));
        }
        if a.start_epoch <= now {
            out.push(a);
        }
        i = i + 1;
    }
    proof {
        assert(all.take(i as int) =~= all);
    }
    out
}

/// The length of the longest assignment name, in characters.
pub open spec fn max_name_len(s: Seq<Assignment>) -> int
    decreases s.len(),
{
    if s.len() == 0 {
        0
    } else {
        let rest = max_name_len(s.drop_last());
        if s.last().name@.len() > rest {
            s.last().name@.len() as int
        } else {
            rest
        }
    }
}

/// The length of the longest assignment status, in characters.
pub open spec fn max_status_len(s: Seq<Assignment>) -> int
    decreases s.len(),
{
    if s.len() == 0 {
        0
    } else {
        let rest = max_status_len(s.drop_last());
        if s.last().status@.len() > rest {
            s.last().status@.len() as int
        } else {
            rest
        }
    }
}

/// One line of the assignment menu: the name and status padded to align
/// into columns, and the due instant rendered as RFC 2822 with its
/// five-character offset replaced by a UTC label.
pub open spec fn spec_assignment_line(
    name: Seq<char>,
    status: Seq<char>,
    due: Seq<char>,
    longest_name: int,
    longest_status: int,
) -> Seq<char>
    recommends
        name.len() <= longest_name,
        status.len() <= longest_status,
        due.len() >= 6,
{
    name + spec_spaces((longest_name - name.len()) as nat) + "   "@ + status + spec_spaces(
        (longest_status - status.len()) as nat,
    ) + "  Due: "@ + due.take(due.len() - 6) + " (UTC)"@
}

/// Renders one assignment as its menu line, padding the name and status
/// out to the given column widths.
pub fn generate_assignment_string(
    assignment: &Assignment,
    longest_assignment_length: usize,
    longest_status_length: usize,
) -> (r: String)
    requires
        assignment.due_renderable(),
        assignment.name@.len() <= longest_assignment_length,
        assignment.status@.len() <= longest_status_length,
    ensures
        r@ == spec_assignment_line(
            assignment.name@,
            assignment.status@,
            rfc2822_of(assignment.due_epoch as int, assignment.due_offset_secs as int),
            longest_assignment_length as int,
            longest_status_length as int,
        ),
{
    let due = format_rfc2822(assignment.due_epoch, assignment.due_offset_secs);
    let due_len: usize = due.as_str().unicode_len();
    let due_trimmed = due.as_str().substring_char(0, due_len - 6);
    let name_len: usize = assignment.name.as_str().unicode_len();
    let status_len: usize = assignment.status.as_str().unicode_len();
    let mut r = String::new();
    r.append(assignment.name.as_str());
    let pad_name = spaces(longest_assignment_length - name_len);
    r.append(pad_name.as_str());
    r.append("   ");
    r.append(assignment.status.as_str());
    let pad_status = spaces(longest_status_length - status_len);
    r.append(pad_status.as_str());
    r.append("  Due: ");
    r.append(due_trimmed);
    r.append(" (UTC)");
    r
}

/// Computes the two column widths of the menu: the longest name and the
/// longest status among the listed assignments.
pub fn column_widths(assignments: &Vec<Assignment>) -> (r: (usize, usize))
    ensures
        r.0 == max_name_len(assignments@),
        r.1 == max_status_len(assignments@),
        forall|i: int|
            0 <= i < assignments@.len() ==> (#[trigger] assignments@[i]).name@.len() <= r.0
                && assignments@[i].status@.len() <= r.1,
{
    let mut longest_name: usize = 0;
    let mut longest_status: usize = 0;
    let mut i: usize = 0;
    while i < assignments.len()
        invariant
            i <= assignments@.len(),
            longest_name == max_name_len(assignments@.take(i as int)),
            longest_status == max_status_len(assignments@.take(i as int)),
            forall|j: int|
                0 <= j < i ==> (#[trigger] assignments@[j]).name@.len() <= longest_name
                    && assignments@[j].status@.len() <= longest_status,
        decreases assignments@.len() - i,
    {
        let name_len: usize = assignments[i].name.as_str().unicode_len();
        let status_len: usize = assignments[i].status.as_str().unicode_len();
        proof {
            assert(assignments@.take(i + 1).drop_last() =~= assignments@.take(i as int));
            assert(assignments@.take(i + 1).last() == assignments@[i as int]);
        }
        if name_len > longest_name {
            longest_name = name_len;
        }
        if status_len > longest_status {
            longest_status = status_len;
        }
        i = i + 1;
    }
    proof {
        assert(assignments@.take(i as int) =~= assignments@);
    }
    (longest_name, longest_status)
}

/// Builds the selectable menu: the two fixed options, then one aligned
/// line per assignment. Refuses a list with a due instant it cannot
/// render.
pub fn assignment_menu(assignments: &Vec<Assignment>) -> (r: Option<Vec<String>>)
    ensures
        r is Some <==> forall|i: int|
            0 <= i < assignments@.len() ==> (#[trigger] assignments@[i]).due_renderable(),
        r matches Some(m) ==> {
            &&& m@.len() == assignments@.len() + 2
            &&& m@[0]@ == "All assignments"@
            &&& m@[1]@ == "Custom (from URL)"@
            &&& forall|i: int|
                0 <= i < assignments@.len() ==> (#[trigger] m@[i + 2])@ == spec_assignment_line(
                    assignments@[i].name@,
                    assignments@[i].status@,
                    rfc2822_of(
                        assignments@[i].due_epoch as int,
                        assignments@[i].due_offset_secs as int,
                    ),
                    max_name_len(assignments@),
                    max_status_len(assignments@),
                )
        },
{
    let (longest_name, longest_status) = column_widths(assignments);
    let mut m: Vec<String> = Vec::new();
    m.push(String::from_str("All assignments"));
    m.push(String::from_str("Custom (from URL)"));
    let mut i: usize = 0;
    while i < assignments.len()
        invariant
            i <= assignments@.len(),
            longest_name == max_name_len(assignments@),
            longest_status == max_status_len(assignments@),
            forall|j: int|
                0 <= j < assignments@.len() ==> (#[trigger] assignments@[j]).name@.len()
                    <= longest_name && assignments@[j].status@.len() <= longest_status,
            m@.len() == i + 2,
            m@[0]@ == "All assignments"@,
            m@[1]@ == "Custom (from URL)"@,
            forall|j: int| 0 <= j < i ==> (#[trigger] assignments@[j]).due_renderable(),
            forall|j: int|
                0 <= j < i ==> (#[trigger] m@[j + 2])@ == spec_assignment_line(
                    assignments@[j].name@,
                    assignments@[j].status@,
                    rfc2822_of(
                        assignments@[j].due_epoch as int,
                        assignments@[j].due_offset_secs as int,
                    ),
                    max_name_len(assignments@),
                    max_status_len(assignments@),
                ),
        decreases assignments@.len() - i,
    {
        let a = &assignments[i];
        let offset_ok = -86_399 <= a.due_offset_secs && a.due_offset_secs <= 86_399;
        if !offset_ok {
            return None;
        }
        let local = a.due_epoch.checked_add(a.due_offset_secs as i64);
        let local_ok = match local {
            Some(l) => MIN_FORMAT_EPOCH <= l && l <= MAX_FORMAT_EPOCH,
            None => false,
        };
        if !local_ok {
            return None;
        }
        let line = generate_assignment_string(a, longest_name, longest_status);
        m.push(line);
        i = i + 1;
    }
    Some(m)
}

/// Finds the first assignment whose menu line reads `chosen`, the way a
/// menu answer is mapped back to the assignment it named.
pub fn find_assignment(
    assignments: &Vec<Assignment>,
    longest_name: usize,
    longest_status: usize,
    chosen: &str,
) -> (r: Option<usize>)
    requires
        forall|i: int|
            0 <= i < assignments@.len() ==> (#[trigger] assignments@[i]).due_renderable()
                && assignments@[i].name@.len() <= longest_name && assignments@[i].status@.len()
                <= longest_status,
    ensures
        r matches Some(i) ==> {
            &&& i < assignments@.len()
            &&& line_of(assignments@[i as int], longest_name as int, longest_status as int)
                == chosen@
            &&& forall|j: int|
                0 <= j < i ==> line_of(
                    #[trigger] assignments@[j],
                    longest_name as int,
                    longest_status as int,
                ) != chosen@
        },
        r is None ==> forall|j: int|
            0 <= j < assignments@.len() ==> line_of(
                #[trigger] assignments@[j],
                longest_name as int,
                longest_status as int,
            ) != chosen@,
{
    let mut i: usize = 0;
    while i < assignments.len()
        invariant
            i <= assignments@.len(),
            forall|k: int|
                0 <= k < assignments@.len() ==> (#[trigger] assignments@[k]).due_renderable()
                    && assignments@[k].name@.len() <= longest_name && assignments@[k].status@.len()
                    <= longest_status,
            forall|j: int|
                0 <= j < i ==> line_of(
                    #[trigger] assignments@[j],
                    longest_name as int,
                    longest_status as int,
                ) != chosen@,
        decreases assignments@.len() - i,
    {
        let line = generate_assignment_string(&assignments[i], longest_name, longest_status);
        if str_eq(line.as_str(), chosen) {
            return Some(i);
        }
        i = i + 1;
    }
    None
}

/// The menu line of one assignment at the given column widths.
pub open spec fn line_of(a: Assignment, longest_name: int, longest_status: int) -> Seq<char> {
    spec_assignment_line(
        a.name@,
        a.status@,
        rfc2822_of(a.due_epoch as int, a.due_offset_secs as int),
        longest_name,
        longest_status,
    )
}

/// Settles what a prompt answer means: a failed prompt is a read error,
/// an empty answer falls back to the clipboard text, and either way the
/// chosen text loses its surrounding white space.
pub fn input_or_clipboard(user_input: Option<String>, clipboard: String) -> (r: Result<
    String,
    String,
>)
    ensures
        user_input is None ==> (r matches Err(m) && m@ == "Failed to read input"@),
        user_input matches Some(s) ==> {
            &&& s@.len() > 0 ==> (r matches Ok(v) && v@ == crate::strutil::spec_trim(s@))
            &&& s@.len() == 0 ==> (r matches Ok(v) && v@ == crate::strutil::spec_trim(clipboard@))
        },
{
    let input = match user_input {
        Some(s) => s,
        None => {
            return Err(String::from_str("Failed to read input"));
        },
    };
    if input.as_str().unicode_len() == 0 {
        Ok(crate::strutil::trim_spaces(clipboard.as_str()))
    } else {
        Ok(crate::strutil::trim_spaces(input.as_str()))
    }
}

/// The message reported when pasted text holds no course fingerprint:
/// a recoverable input error.
pub fn invalid_url_message() -> (r: String)
    ensures
        r@ == "Invalid assignment URL. This URL should be in the format https://app.senecalearning.com/classroom/course/<course_id>/section/<section_id>/session"@,
{
    String::from_str(
        "Invalid assignment URL. This URL should be in the format https://app.senecalearning.com/classroom/course/<course_id>/section/<section_id>/session",
    )
}

/// The friendly replacement for a failed contents fetch: a status-class
/// error means the course or section does not exist; any other failure is
/// left to the caller verbatim.
pub fn not_found_message(e: &ClientError) -> (r: Option<String>)
    ensures
        r is Some <==> e is Status,
        r matches Some(m) ==> m@
            == "Course and/or section not found. Double-check that you have entered a valid Seneca URL"@,
{
    match e {
        ClientError::Status { .. } => Some(
            String::from_str(
                "Course and/or section not found. Double-check that you have entered a valid Seneca URL",
            ),
        ),
        ClientError::Auth { .. } => None,
        ClientError::MalformedReply => None,
    }
}

/// The display names of the content items of a section: the first tag of
/// each. Refuses a list with an untagged item.
pub fn content_names(contents: &Vec<ContentItem>) -> (r: Option<Vec<String>>)
    ensures
        r is Some <==> forall|i: int|
            0 <= i < contents@.len() ==> (#[trigger] contents@[i]).tags@.len() > 0,
        r matches Some(names) ==> {
            &&& names@.len() == contents@.len()
            &&& forall|i: int|
                0 <= i < contents@.len() ==> (#[trigger] names@[i])@ == contents@[i].tags@[0]@
        },
{
    let mut names: Vec<String> = Vec::new();
    let mut i: usize = 0;
    while i < contents.len()
        invariant
            i <= contents@.len(),
            names@.len() == i,
            forall|j: int| 0 <= j < i ==> (#[trigger] contents@[j]).tags@.len() > 0,
            forall|j: int|
                0 <= j < i ==> (#[trigger] names@[j])@ == contents@[j].tags@[0]@,
        decreases contents@.len() - i,
    {
        let item = &contents[i];
        if item.tags.len() == 0 {
            return None;
        }
        let first = &item.tags[0];
        names.push(first.clone());
        i = i + 1;
    }
    Some(names)
}

/// Finds the first content item whose first tag reads `chosen`, the way a
/// subsection menu answer is mapped back to its content item.
pub fn find_content(contents: &Vec<ContentItem>, chosen: &str) -> (r: Option<usize>)
    requires
        forall|i: int| 0 <= i < contents@.len() ==> (#[trigger] contents@[i]).tags@.len() > 0,
    ensures
        r matches Some(i) ==> {
            &&& i < contents@.len()
            &&& contents@[i as int].tags@[0]@ == chosen@
            &&& forall|j: int| 0 <= j < i ==> (#[trigger] contents@[j]).tags@[0]@ != chosen@
        },
        r is None ==> forall|j: int|
            0 <= j < contents@.len() ==> (#[trigger] contents@[j]).tags@[0]@ != chosen@,
{
    let mut i: usize = 0;
    while i < contents.len()
        invariant
            i <= contents@.len(),
            forall|k: int| 0 <= k < contents@.len() ==> (#[trigger] contents@[k]).tags@.len() > 0,
            forall|j: int| 0 <= j < i ==> (#[trigger] contents@[j]).tags@[0]@ != chosen@,
        decreases contents@.len() - i,
    {
        if str_eq(contents[i].tags[0].as_str(), chosen) {
            return Some(i);
        }
        i = i + 1;
    }
    None
}

} // verus!
