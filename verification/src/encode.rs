//! Encoding of the record types back into JSON trees.
//!
//! Encoders always emit every member, writing `null` for an absent scalar
//! and an array for every sequence, so an encoded record decodes back to
//! itself (see the round-trip laws in `laws`).

use vstd::prelude::*;

use crate::json::{json_pairs_view, json_seq_view, Json, JsonV};
use crate::records::{
    Building, BuildingAddress, BuildingAddressView, BuildingView, Coordinates, CoordinatesView,
    Course, CourseView, CoursesMeetingSection, CoursesMeetingSectionView, DayHours, DayHoursView,
    Eval, EvalLecture, EvalLectureView, EvalTerm, EvalTermView, EvalView, Exam, ExamSection,
    ExamSectionView, ExamView, Food, FoodView, Hours, HoursView, JsonNumber, Parking, ParkingView,
    Response, ResponseView, Service, ServiceView, Textbook, TextbookView, TextbooksCourse,
    TextbooksCourseView, TextbooksMeetingSection, TextbooksMeetingSectionView, Time, TimeView,
};
use crate::text::{i64_dec_string, spec_i64_str};

verus! {

/// An optional string member: `null` when absent.
pub open spec fn enc_opt_str(v: Option<Seq<char>>) -> JsonV {
    match v {
        Option::Some(s) => JsonV::Str(s),
        Option::None => JsonV::Null,
    }
}

/// An optional integer member, written in decimal.
pub open spec fn enc_opt_int(v: Option<i64>) -> JsonV {
    match v {
        Option::Some(n) => JsonV::Num(spec_i64_str(n)),
        Option::None => JsonV::Null,
    }
}

/// An optional boolean member.
pub open spec fn enc_opt_bool(v: Option<bool>) -> JsonV {
    match v {
        Option::Some(b) => JsonV::Bool(b),
        Option::None => JsonV::Null,
    }
}

/// An optional number member, written as its kept literal text.
pub open spec fn enc_opt_num(v: Option<Seq<char>>) -> JsonV {
    match v {
        Option::Some(t) => JsonV::Num(t),
        Option::None => JsonV::Null,
    }
}

/// An optional nested record member, encoded by `f`.
pub open spec fn enc_opt_rec<T>(v: Option<T>, f: spec_fn(T) -> JsonV) -> JsonV {
    match v {
        Option::Some(x) => f(x),
        Option::None => JsonV::Null,
    }
}

/// Encode a string element of an array.
pub open spec fn enc_string() -> spec_fn(Seq<char>) -> JsonV {
    |s: Seq<char>| JsonV::Str(s)
}

fn json_of_opt_str(v: &Option<String>) -> (r: Json)
    ensures
        r@ == enc_opt_str(v.deep_view()),
{
    match v {
        Some(s) => Json::Str(s.clone()),
        None => Json::Null,
    }
}

fn json_of_opt_int(v: &Option<i64>) -> (r: Json)
    ensures
        r@ == enc_opt_int(*v),
{
    match v {
        Some(n) => Json::Num(i64_dec_string(*n)),
        None => Json::Null,
    }
}

fn json_of_opt_bool(v: &Option<bool>) -> (r: Json)
    ensures
        r@ == enc_opt_bool(*v),
{
    match v {
        Some(b) => Json::Bool(*b),
        None => Json::Null,
    }
}

fn json_of_opt_num(v: &Option<JsonNumber>) -> (r: Json)
    ensures
        r@ == enc_opt_num(v.deep_view()),
{
    match v {
        Some(n) => Json::Num(n.text.clone()),
        None => Json::Null,
    }
}

/// Encode a string element, exactly as `enc_string` does.
pub fn string_to_json(s: &String) -> (r: Json)
    ensures
        r@ == JsonV::Str(s@),
{
    Json::Str(s.clone())
}

/// Encode a vector of strings as a JSON array.
pub fn json_of_string_list(v: &Vec<String>) -> (r: Json)
    ensures
        r@ == JsonV::Arr(v.deep_view().map_values(enc_string())),
{
    let ghost f = enc_string();
    let ghost dv = v.deep_view();
    let mut a: Vec<Json> = Vec::new();
    proof {
        assert(json_seq_view(a) =~= dv.take(0).map_values(f));
    }
    let mut i: usize = 0;
    while i < v.len()
        invariant
            i <= v@.len(),
            dv == v.deep_view(),
            f == enc_string(),
            dv.len() == v@.len(),
            a@.len() == i as int,
            json_seq_view(a) == dv.take(i as int).map_values(f),
        decreases v@.len() - i,
    {
        let x = string_to_json(&v[i]);
        let ghost aold = a@;
        let ghost jsv_old = json_seq_view(a);
        a.push(x);
        proof {
            assert(dv[i as int] == v@[i as int].deep_view());
            assert forall|j: int| 0 <= j < a@.len() implies #[trigger] json_seq_view(a)[j]
                == dv.take(i as int + 1).map_values(f)[j] by {
                if j < i as int {
                    assert(a@[j] == aold[j]);
                    assert(jsv_old[j] == dv.take(i as int).map_values(f)[j]);
                    assert(dv.take(i as int)[j] == dv.take(i as int + 1)[j]);
                } else {
                    assert(a@[j] == x);
                }
            }
            assert(json_seq_view(a) =~= dv.take(i as int + 1).map_values(f));
        }
        i += 1;
    }
    proof {
        assert(dv.take(i as int) =~= dv);
    }
    Json::Arr(a)
}

/// Encode a meeting time, every member written out.
pub open spec fn spec_time_to_json(x: TimeView) -> JsonV {
    JsonV::Obj(
        seq![
            ("day"@, enc_opt_str(x.day)),
            ("start"@, enc_opt_int(x.start)),
            ("end"@, enc_opt_int(x.end)),
            ("duration"@, enc_opt_int(x.duration)),
            ("location"@, enc_opt_str(x.location)),
        ],
    )
}

pub open spec fn enc_time() -> spec_fn(TimeView) -> JsonV {
    |x: TimeView| spec_time_to_json(x)
}

/// Encode a meeting time, exactly as `spec_time_to_json` does on the model.
pub fn time_to_json(v: &Time) -> (r: Json)
    ensures
        r@ == spec_time_to_json(v@),
{
    let mut es: Vec<(String, Json)> = Vec::new();
    es.push((String::from_str("day"), json_of_opt_str(&v.day)));
    es.push((String::from_str("start"), json_of_opt_int(&v.start)));
    es.push((String::from_str("end"), json_of_opt_int(&v.end)));
    es.push((String::from_str("duration"), json_of_opt_int(&v.duration)));
    es.push((String::from_str("location"), json_of_opt_str(&v.location)));
    proof {
        assert(json_pairs_view(es) =~= match spec_time_to_json(v@) {
            JsonV::Obj(entries) => entries,
            _ => Seq::empty(),
        });
    }
    Json::Obj(es)
}

/// Encode a vector of a meeting times as a JSON array.
pub fn json_of_time_list(v: &Vec<Time>) -> (r: Json)
    ensures
        r@ == JsonV::Arr(v.deep_view().map_values(enc_time())),
{
    let ghost f = enc_time();
    let ghost dv = v.deep_view();
    let mut a: Vec<Json> = Vec::new();
    proof {
        assert(json_seq_view(a) =~= dv.take(0).map_values(f));
    }
    let mut i: usize = 0;
    while i < v.len()
        invariant
            i <= v@.len(),
            dv == v.deep_view(),
            f == enc_time(),
            dv.len() == v@.len(),
            a@.len() == i as int,
            json_seq_view(a) == dv.take(i as int).map_values(f),
        decreases v@.len() - i,
    {
        let x = time_to_json(&v[i]);
        let ghost aold = a@;
        let ghost jsv_old = json_seq_view(a);
        a.push(x);
        proof {
            assert(dv[i as int] == v@[i as int].deep_view());
            assert forall|j: int| 0 <= j < a@.len() implies #[trigger] json_seq_view(a)[j]
                == dv.take(i as int + 1).map_values(f)[j] by {
                if j < i as int {
                    assert(a@[j] == aold[j]);
                    assert(jsv_old[j] == dv.take(i as int).map_values(f)[j]);
                    assert(dv.take(i as int)[j] == dv.take(i as int + 1)[j]);
                } else {
                    assert(a@[j] == x);
                }
            }
            assert(json_seq_view(a) =~= dv.take(i as int + 1).map_values(f));
        }
        i += 1;
    }
    proof {
        assert(dv.take(i as int) =~= dv);
    }
    Json::Arr(a)
}

/// Encode a course meeting section, every member written out.
pub open spec fn spec_courses_meeting_section_to_json(x: CoursesMeetingSectionView) -> JsonV {
    JsonV::Obj(
        seq![
            ("code"@, enc_opt_str(x.code)),
            ("instructors"@, JsonV::Arr(x.instructors.map_values(enc_string()))),
            ("times"@, JsonV::Arr(x.times.map_values(enc_time()))),
            ("size"@, enc_opt_int(x.size)),
            ("enrollment"@, enc_opt_int(x.enrollment)),
            ("waitlist_option"@, enc_opt_bool(x.waitlist_option)),
            ("delivery"@, enc_opt_str(x.delivery)),
        ],
    )
}

pub open spec fn enc_courses_meeting_section() -> spec_fn(CoursesMeetingSectionView) -> JsonV {
    |x: CoursesMeetingSectionView| spec_courses_meeting_section_to_json(x)
}

/// Encode a course meeting section, exactly as `spec_courses_meeting_section_to_json` does on the model.
pub fn courses_meeting_section_to_json(v: &CoursesMeetingSection) -> (r: Json)
    ensures
        r@ == spec_courses_meeting_section_to_json(v@),
{
    let mut es: Vec<(String, Json)> = Vec::new();
    es.push((String::from_str("code"), json_of_opt_str(&v.code)));
    es.push((String::from_str("instructors"), json_of_string_list(&v.instructors)));
    es.push((String::from_str("times"), json_of_time_list(&v.times)));
    es.push((String::from_str("size"), json_of_opt_int(&v.size)));
    es.push((String::from_str("enrollment"), json_of_opt_int(&v.enrollment)));
    es.push((String::from_str("waitlist_option"), json_of_opt_bool(&v.waitlist_option)));
    es.push((String::from_str("delivery"), json_of_opt_str(&v.delivery)));
    proof {
        assert(json_pairs_view(es) =~= match spec_courses_meeting_section_to_json(v@) {
            JsonV::Obj(entries) => entries,
            _ => Seq::empty(),
        });
    }
    Json::Obj(es)
}

/// Encode a vector of a course meeting sections as a JSON array.
pub fn json_of_courses_meeting_section_list(v: &Vec<CoursesMeetingSection>) -> (r: Json)
    ensures
        r@ == JsonV::Arr(v.deep_view().map_values(enc_courses_meeting_section())),
{
    let ghost f = enc_courses_meeting_section();
    let ghost dv = v.deep_view();
    let mut a: Vec<Json> = Vec::new();
    proof {
        assert(json_seq_view(a) =~= dv.take(0).map_values(f));
    }
    let mut i: usize = 0;
    while i < v.len()
        invariant
            i <= v@.len(),
            dv == v.deep_view(),
            f == enc_courses_meeting_section(),
            dv.len() == v@.len(),
            a@.len() == i as int,
            json_seq_view(a) == dv.take(i as int).map_values(f),
        decreases v@.len() - i,
    {
        let x = courses_meeting_section_to_json(&v[i]);
        let ghost aold = a@;
        let ghost jsv_old = json_seq_view(a);
        a.push(x);
        proof {
            assert(dv[i as int] == v@[i as int].deep_view());
            assert forall|j: int| 0 <= j < a@.len() implies #[trigger] json_seq_view(a)[j]
                == dv.take(i as int + 1).map_values(f)[j] by {
                if j < i as int {
                    assert(a@[j] == aold[j]);
                    assert(jsv_old[j] == dv.take(i as int).map_values(f)[j]);
                    assert(dv.take(i as int)[j] == dv.take(i as int + 1)[j]);
                } else {
                    assert(a@[j] == x);
                }
            }
            assert(json_seq_view(a) =~= dv.take(i as int + 1).map_values(f));
        }
        i += 1;
    }
    proof {
        assert(dv.take(i as int) =~= dv);
    }
    Json::Arr(a)
}

/// Encode a course record, every member written out.
pub open spec fn spec_course_to_json(x: CourseView) -> JsonV {
    JsonV::Obj(
        seq![
            ("id"@, enc_opt_str(x.id)),
            ("code"@, enc_opt_str(x.code)),
            ("name"@, enc_opt_str(x.name)),
            ("description"@, enc_opt_str(x.description)),
            ("division"@, enc_opt_str(x.division)),
            ("department"@, enc_opt_str(x.department)),
            ("prerequisites"@, enc_opt_str(x.prerequisites)),
            ("corequisites"@, enc_opt_str(x.corequisites)),
            ("exclusions"@, enc_opt_str(x.exclusions)),
            ("recommended_preparation"@, enc_opt_str(x.recommended_preparation)),
            ("level"@, enc_opt_str(x.level)),
            ("campus"@, enc_opt_str(x.campus)),
            ("term"@, enc_opt_str(x.term)),
            ("arts_and_science_breadth"@, enc_opt_str(x.arts_and_science_breadth)),
            ("arts_and_science_distribution"@, enc_opt_str(x.arts_and_science_distribution)),
            ("utm_distribution"@, enc_opt_str(x.utm_distribution)),
            ("utsc_breadth"@, enc_opt_str(x.utsc_breadth)),
            ("apsc_electives"@, enc_opt_str(x.apsc_electives)),
            ("meeting_sections"@, JsonV::Arr(x.meeting_sections.map_values(enc_courses_meeting_section()))),
            ("last_updated"@, enc_opt_str(x.last_updated)),
        ],
    )
}

pub open spec fn enc_course() -> spec_fn(CourseView) -> JsonV {
    |x: CourseView| spec_course_to_json(x)
}

/// Encode a course record, exactly as `spec_course_to_json` does on the model.
pub fn course_to_json(v: &Course) -> (r: Json)
    ensures
        r@ == spec_course_to_json(v@),
{
    let mut es: Vec<(String, Json)> = Vec::new();
    es.push((String::from_str("id"), json_of_opt_str(&v.id)));
    es.push((String::from_str("code"), json_of_opt_str(&v.code)));
    es.push((String::from_str("name"), json_of_opt_str(&v.name)));
    es.push((String::from_str("description"), json_of_opt_str(&v.description)));
    es.push((String::from_str("division"), json_of_opt_str(&v.division)));
    es.push((String::from_str("department"), json_of_opt_str(&v.department)));
    es.push((String::from_str("prerequisites"), json_of_opt_str(&v.prerequisites)));
    es.push((String::from_str("corequisites"), json_of_opt_str(&v.corequisites)));
    es.push((String::from_str("exclusions"), json_of_opt_str(&v.exclusions)));
    es.push((String::from_str("recommended_preparation"), json_of_opt_str(&v.recommended_preparation)));
    es.push((String::from_str("level"), json_of_opt_str(&v.level)));
    es.push((String::from_str("campus"), json_of_opt_str(&v.campus)));
    es.push((String::from_str("term"), json_of_opt_str(&v.term)));
    es.push((String::from_str("arts_and_science_breadth"), json_of_opt_str(&v.arts_and_science_breadth)));
    es.push((String::from_str("arts_and_science_distribution"), json_of_opt_str(&v.arts_and_science_distribution)));
    es.push((String::from_str("utm_distribution"), json_of_opt_str(&v.utm_distribution)));
    es.push((String::from_str("utsc_breadth"), json_of_opt_str(&v.utsc_breadth)));
    es.push((String::from_str("apsc_electives"), json_of_opt_str(&v.apsc_electives)));
    es.push((String::from_str("meeting_sections"), json_of_courses_meeting_section_list(&v.meeting_sections)));
    es.push((String::from_str("last_updated"), json_of_opt_str(&v.last_updated)));
    proof {
        assert(json_pairs_view(es) =~= match spec_course_to_json(v@) {
            JsonV::Obj(entries) => entries,
            _ => Seq::empty(),
        });
    }
    Json::Obj(es)
}

/// Encode a vector of a course records as a JSON array.
pub fn json_of_course_list(v: &Vec<Course>) -> (r: Json)
    ensures
        r@ == JsonV::Arr(v.deep_view().map_values(enc_course())),
{
    let ghost f = enc_course();
    let ghost dv = v.deep_view();
    let mut a: Vec<Json> = Vec::new();
    proof {
        assert(json_seq_view(a) =~= dv.take(0).map_values(f));
    }
    let mut i: usize = 0;
    while i < v.len()
        invariant
            i <= v@.len(),
            dv == v.deep_view(),
            f == enc_course(),
            dv.len() == v@.len(),
            a@.len() == i as int,
            json_seq_view(a) == dv.take(i as int).map_values(f),
        decreases v@.len() - i,
    {
        let x = course_to_json(&v[i]);
        let ghost aold = a@;
        let ghost jsv_old = json_seq_view(a);
        a.push(x);
        proof {
            assert(dv[i as int] == v@[i as int].deep_view());
            assert forall|j: int| 0 <= j < a@.len() implies #[trigger] json_seq_view(a)[j]
                == dv.take(i as int + 1).map_values(f)[j] by {
                if j < i as int {
                    assert(a@[j] == aold[j]);
                    assert(jsv_old[j] == dv.take(i as int).map_values(f)[j]);
                    assert(dv.take(i as int)[j] == dv.take(i as int + 1)[j]);
                } else {
                    assert(a@[j] == x);
                }
            }
            assert(json_seq_view(a) =~= dv.take(i as int + 1).map_values(f));
        }
        i += 1;
    }
    proof {
        assert(dv.take(i as int) =~= dv);
    }
    Json::Arr(a)
}

/// Encode a textbook meeting section, every member written out.
pub open spec fn spec_textbooks_meeting_section_to_json(x: TextbooksMeetingSectionView) -> JsonV {
    JsonV::Obj(
        seq![
            ("code"@, enc_opt_str(x.code)),
            ("instructors"@, JsonV::Arr(x.instructors.map_values(enc_string()))),
        ],
    )
}

pub open spec fn enc_textbooks_meeting_section() -> spec_fn(TextbooksMeetingSectionView) -> JsonV {
    |x: TextbooksMeetingSectionView| spec_textbooks_meeting_section_to_json(x)
}

/// Encode a textbook meeting section, exactly as `spec_textbooks_meeting_section_to_json` does on the model.
pub fn textbooks_meeting_section_to_json(v: &TextbooksMeetingSection) -> (r: Json)
    ensures
        r@ == spec_textbooks_meeting_section_to_json(v@),
{
    let mut es: Vec<(String, Json)> = Vec::new();
    es.push((String::from_str("code"), json_of_opt_str(&v.code)));
    es.push((String::from_str("instructors"), json_of_string_list(&v.instructors)));
    proof {
        assert(json_pairs_view(es) =~= match spec_textbooks_meeting_section_to_json(v@) {
            JsonV::Obj(entries) => entries,
            _ => Seq::empty(),
        });
    }
    Json::Obj(es)
}

/// Encode a vector of a textbook meeting sections as a JSON array.
pub fn json_of_textbooks_meeting_section_list(v: &Vec<TextbooksMeetingSection>) -> (r: Json)
    ensures
        r@ == JsonV::Arr(v.deep_view().map_values(enc_textbooks_meeting_section())),
{
    let ghost f = enc_textbooks_meeting_section();
    let ghost dv = v.deep_view();
    let mut a: Vec<Json> = Vec::new();
    proof {
        assert(json_seq_view(a) =~= dv.take(0).map_values(f));
    }
    let mut i: usize = 0;
    while i < v.len()
        invariant
            i <= v@.len(),
            dv == v.deep_view(),
            f == enc_textbooks_meeting_section(),
            dv.len() == v@.len(),
            a@.len() == i as int,
            json_seq_view(a) == dv.take(i as int).map_values(f),
        decreases v@.len() - i,
    {
        let x = textbooks_meeting_section_to_json(&v[i]);
        let ghost aold = a@;
        let ghost jsv_old = json_seq_view(a);
        a.push(x);
        proof {
            assert(dv[i as int] == v@[i as int].deep_view());
            assert forall|j: int| 0 <= j < a@.len() implies #[trigger] json_seq_view(a)[j]
                == dv.take(i as int + 1).map_values(f)[j] by {
                if j < i as int {
                    assert(a@[j] == aold[j]);
                    assert(jsv_old[j] == dv.take(i as int).map_values(f)[j]);
                    assert(dv.take(i as int)[j] == dv.take(i as int + 1)[j]);
                } else {
                    assert(a@[j] == x);
                }
            }
            assert(json_seq_view(a) =~= dv.take(i as int + 1).map_values(f));
        }
        i += 1;
    }
    proof {
        assert(dv.take(i as int) =~= dv);
    }
    Json::Arr(a)
}

/// Encode a textbook course reference, every member written out.
pub open spec fn spec_textbooks_course_to_json(x: TextbooksCourseView) -> JsonV {
    JsonV::Obj(
        seq![
            ("id"@, enc_opt_str(x.id)),
            ("code"@, enc_opt_str(x.code)),
            ("requirement"@, enc_opt_str(x.requirement)),
            ("meeting_sections"@, JsonV::Arr(x.meeting_sections.map_values(enc_textbooks_meeting_section()))),
        ],
    )
}

pub open spec fn enc_textbooks_course() -> spec_fn(TextbooksCourseView) -> JsonV {
    |x: TextbooksCourseView| spec_textbooks_course_to_json(x)
}

/// Encode a textbook course reference, exactly as `spec_textbooks_course_to_json` does on the model.
pub fn textbooks_course_to_json(v: &TextbooksCourse) -> (r: Json)
    ensures
        r@ == spec_textbooks_course_to_json(v@),
{
    let mut es: Vec<(String, Json)> = Vec::new();
    es.push((String::from_str("id"), json_of_opt_str(&v.id)));
    es.push((String::from_str("code"), json_of_opt_str(&v.code)));
    es.push((String::from_str("requirement"), json_of_opt_str(&v.requirement)));
    es.push((String::from_str("meeting_sections"), json_of_textbooks_meeting_section_list(&v.meeting_sections)));
    proof {
        assert(json_pairs_view(es) =~= match spec_textbooks_course_to_json(v@) {
            JsonV::Obj(entries) => entries,
            _ => Seq::empty(),
        });
    }
    Json::Obj(es)
}

/// Encode a vector of a textbook course references as a JSON array.
pub fn json_of_textbooks_course_list(v: &Vec<TextbooksCourse>) -> (r: Json)
    ensures
        r@ == JsonV::Arr(v.deep_view().map_values(enc_textbooks_course())),
{
    let ghost f = enc_textbooks_course();
    let ghost dv = v.deep_view();
    let mut a: Vec<Json> = Vec::new();
    proof {
        assert(json_seq_view(a) =~= dv.take(0).map_values(f));
    }
    let mut i: usize = 0;
    while i < v.len()
        invariant
            i <= v@.len(),
            dv == v.deep_view(),
            f == enc_textbooks_course(),
            dv.len() == v@.len(),
            a@.len() == i as int,
            json_seq_view(a) == dv.take(i as int).map_values(f),
        decreases v@.len() - i,
    {
        let x = textbooks_course_to_json(&v[i]);
        let ghost aold = a@;
        let ghost jsv_old = json_seq_view(a);
        a.push(x);
        proof {
            assert(dv[i as int] == v@[i as int].deep_view());
            assert forall|j: int| 0 <= j < a@.len() implies #[trigger] json_seq_view(a)[j]
                == dv.take(i as int + 1).map_values(f)[j] by {
                if j < i as int {
                    assert(a@[j] == aold[j]);
                    assert(jsv_old[j] == dv.take(i as int).map_values(f)[j]);
                    assert(dv.take(i as int)[j] == dv.take(i as int + 1)[j]);
                } else {
                    assert(a@[j] == x);
                }
            }
            assert(json_seq_view(a) =~= dv.take(i as int + 1).map_values(f));
        }
        i += 1;
    }
    proof {
        assert(dv.take(i as int) =~= dv);
    }
    Json::Arr(a)
}

/// Encode a textbook record, every member written out.
pub open spec fn spec_textbook_to_json(x: TextbookView) -> JsonV {
    JsonV::Obj(
        seq![
            ("id"@, enc_opt_str(x.id)),
            ("isbn"@, enc_opt_str(x.isbn)),
            ("title"@, enc_opt_str(x.title)),
            ("edition"@, enc_opt_int(x.edition)),
            ("author"@, enc_opt_str(x.author)),
            ("image"@, enc_opt_str(x.image)),
            ("price"@, enc_opt_num(x.price)),
            ("url"@, enc_opt_str(x.url)),
            ("courses"@, JsonV::Arr(x.courses.map_values(enc_textbooks_course()))),
            ("last_updated"@, enc_opt_str(x.last_updated)),
        ],
    )
}

pub open spec fn enc_textbook() -> spec_fn(TextbookView) -> JsonV {
    |x: TextbookView| spec_textbook_to_json(x)
}

/// Encode a textbook record, exactly as `spec_textbook_to_json` does on the model.
pub fn textbook_to_json(v: &Textbook) -> (r: Json)
    ensures
        r@ == spec_textbook_to_json(v@),
{
    let mut es: Vec<(String, Json)> = Vec::new();
    es.push((String::from_str("id"), json_of_opt_str(&v.id)));
    es.push((String::from_str("isbn"), json_of_opt_str(&v.isbn)));
    es.push((String::from_str("title"), json_of_opt_str(&v.title)));
    es.push((String::from_str("edition"), json_of_opt_int(&v.edition)));
    es.push((String::from_str("author"), json_of_opt_str(&v.author)));
    es.push((String::from_str("image"), json_of_opt_str(&v.image)));
    es.push((String::from_str("price"), json_of_opt_num(&v.price)));
    es.push((String::from_str("url"), json_of_opt_str(&v.url)));
    es.push((String::from_str("courses"), json_of_textbooks_course_list(&v.courses)));
    es.push((String::from_str("last_updated"), json_of_opt_str(&v.last_updated)));
    proof {
        assert(json_pairs_view(es) =~= match spec_textbook_to_json(v@) {
            JsonV::Obj(entries) => entries,
            _ => Seq::empty(),
        });
    }
    Json::Obj(es)
}

/// Encode a vector of a textbook records as a JSON array.
pub fn json_of_textbook_list(v: &Vec<Textbook>) -> (r: Json)
    ensures
        r@ == JsonV::Arr(v.deep_view().map_values(enc_textbook())),
{
    let ghost f = enc_textbook();
    let ghost dv = v.deep_view();
    let mut a: Vec<Json> = Vec::new();
    proof {
        assert(json_seq_view(a) =~= dv.take(0).map_values(f));
    }
    let mut i: usize = 0;
    while i < v.len()
        invariant
            i <= v@.len(),
            dv == v.deep_view(),
            f == enc_textbook(),
            dv.len() == v@.len(),
            a@.len() == i as int,
            json_seq_view(a) == dv.take(i as int).map_values(f),
        decreases v@.len() - i,
    {
        let x = textbook_to_json(&v[i]);
        let ghost aold = a@;
        let ghost jsv_old = json_seq_view(a);
        a.push(x);
        proof {
            assert(dv[i as int] == v@[i as int].deep_view());
            assert forall|j: int| 0 <= j < a@.len() implies #[trigger] json_seq_view(a)[j]
                == dv.take(i as int + 1).map_values(f)[j] by {
                if j < i as int {
                    assert(a@[j] == aold[j]);
                    assert(jsv_old[j] == dv.take(i as int).map_values(f)[j]);
                    assert(dv.take(i as int)[j] == dv.take(i as int + 1)[j]);
                } else {
                    assert(a@[j] == x);
                }
            }
            assert(json_seq_view(a) =~= dv.take(i as int + 1).map_values(f));
        }
        i += 1;
    }
    proof {
        assert(dv.take(i as int) =~= dv);
    }
    Json::Arr(a)
}

/// Encode an exam section, every member written out.
pub open spec fn spec_exam_section_to_json(x: ExamSectionView) -> JsonV {
    JsonV::Obj(
        seq![
            ("lecture_code"@, enc_opt_str(x.lecture_code)),
            ("split"@, enc_opt_str(x.split)),
            ("location"@, enc_opt_str(x.location)),
        ],
    )
}

pub open spec fn enc_exam_section() -> spec_fn(ExamSectionView) -> JsonV {
    |x: ExamSectionView| spec_exam_section_to_json(x)
}

/// Encode an exam section, exactly as `spec_exam_section_to_json` does on the model.
pub fn exam_section_to_json(v: &ExamSection) -> (r: Json)
    ensures
        r@ == spec_exam_section_to_json(v@),
{
    let mut es: Vec<(String, Json)> = Vec::new();
    es.push((String::from_str("lecture_code"), json_of_opt_str(&v.lecture_code)));
    es.push((String::from_str("split"), json_of_opt_str(&v.split)));
    es.push((String::from_str("location"), json_of_opt_str(&v.location)));
    proof {
        assert(json_pairs_view(es) =~= match spec_exam_section_to_json(v@) {
            JsonV::Obj(entries) => entries,
            _ => Seq::empty(),
        });
    }
    Json::Obj(es)
}

/// Encode a vector of an exam sections as a JSON array.
pub fn json_of_exam_section_list(v: &Vec<ExamSection>) -> (r: Json)
    ensures
        r@ == JsonV::Arr(v.deep_view().map_values(enc_exam_section())),
{
    let ghost f = enc_exam_section();
    let ghost dv = v.deep_view();
    let mut a: Vec<Json> = Vec::new();
    proof {
        assert(json_seq_view(a) =~= dv.take(0).map_values(f));
    }
    let mut i: usize = 0;
    while i < v.len()
        invariant
            i <= v@.len(),
            dv == v.deep_view(),
            f == enc_exam_section(),
            dv.len() == v@.len(),
            a@.len() == i as int,
            json_seq_view(a) == dv.take(i as int).map_values(f),
        decreases v@.len() - i,
    {
        let x = exam_section_to_json(&v[i]);
        let ghost aold = a@;
        let ghost jsv_old = json_seq_view(a);
        a.push(x);
        proof {
            assert(dv[i as int] == v@[i as int].deep_view());
            assert forall|j: int| 0 <= j < a@.len() implies #[trigger] json_seq_view(a)[j]
                == dv.take(i as int + 1).map_values(f)[j] by {
                if j < i as int {
                    assert(a@[j] == aold[j]);
                    assert(jsv_old[j] == dv.take(i as int).map_values(f)[j]);
                    assert(dv.take(i as int)[j] == dv.take(i as int + 1)[j]);
                } else {
                    assert(a@[j] == x);
                }
            }
            assert(json_seq_view(a) =~= dv.take(i as int + 1).map_values(f));
        }
        i += 1;
    }
    proof {
        assert(dv.take(i as int) =~= dv);
    }
    Json::Arr(a)
}

/// Encode an exam record, every member written out.
pub open spec fn spec_exam_to_json(x: ExamView) -> JsonV {
    JsonV::Obj(
        seq![
            ("id"@, enc_opt_str(x.id)),
            ("course_id"@, enc_opt_str(x.course_id)),
            ("course_code"@, enc_opt_str(x.course_code)),
            ("campus"@, enc_opt_str(x.campus)),
            ("date"@, enc_opt_str(x.date)),
            ("start"@, enc_opt_int(x.start)),
            ("end"@, enc_opt_int(x.end)),
            ("duration"@, enc_opt_int(x.duration)),
            ("sections"@, JsonV::Arr(x.sections.map_values(enc_exam_section()))),
            ("last_updated"@, enc_opt_str(x.last_updated)),
        ],
    )
}

pub open spec fn enc_exam() -> spec_fn(ExamView) -> JsonV {
    |x: ExamView| spec_exam_to_json(x)
}

/// Encode an exam record, exactly as `spec_exam_to_json` does on the model.
pub fn exam_to_json(v: &Exam) -> (r: Json)
    ensures
        r@ == spec_exam_to_json(v@),
{
    let mut es: Vec<(String, Json)> = Vec::new();
    es.push((String::from_str("id"), json_of_opt_str(&v.id)));
    es.push((String::from_str("course_id"), json_of_opt_str(&v.course_id)));
    es.push((String::from_str("course_code"), json_of_opt_str(&v.course_code)));
    es.push((String::from_str("campus"), json_of_opt_str(&v.campus)));
    es.push((String::from_str("date"), json_of_opt_str(&v.date)));
    es.push((String::from_str("start"), json_of_opt_int(&v.start)));
    es.push((String::from_str("end"), json_of_opt_int(&v.end)));
    es.push((String::from_str("duration"), json_of_opt_int(&v.duration)));
    es.push((String::from_str("sections"), json_of_exam_section_list(&v.sections)));
    es.push((String::from_str("last_updated"), json_of_opt_str(&v.last_updated)));
    proof {
        assert(json_pairs_view(es) =~= match spec_exam_to_json(v@) {
            JsonV::Obj(entries) => entries,
            _ => Seq::empty(),
        });
    }
    Json::Obj(es)
}

/// Encode a vector of an exam records as a JSON array.
pub fn json_of_exam_list(v: &Vec<Exam>) -> (r: Json)
    ensures
        r@ == JsonV::Arr(v.deep_view().map_values(enc_exam())),
{
    let ghost f = enc_exam();
    let ghost dv = v.deep_view();
    let mut a: Vec<Json> = Vec::new();
    proof {
        assert(json_seq_view(a) =~= dv.take(0).map_values(f));
    }
    let mut i: usize = 0;
    while i < v.len()
        invariant
            i <= v@.len(),
            dv == v.deep_view(),
            f == enc_exam(),
            dv.len() == v@.len(),
            a@.len() == i as int,
            json_seq_view(a) == dv.take(i as int).map_values(f),
        decreases v@.len() - i,
    {
        let x = exam_to_json(&v[i]);
        let ghost aold = a@;
        let ghost jsv_old = json_seq_view(a);
        a.push(x);
        proof {
            assert(dv[i as int] == v@[i as int].deep_view());
            assert forall|j: int| 0 <= j < a@.len() implies #[trigger] json_seq_view(a)[j]
                == dv.take(i as int + 1).map_values(f)[j] by {
                if j < i as int {
                    assert(a@[j] == aold[j]);
                    assert(jsv_old[j] == dv.take(i as int).map_values(f)[j]);
                    assert(dv.take(i as int)[j] == dv.take(i as int + 1)[j]);
                } else {
                    assert(a@[j] == x);
                }
            }
            assert(json_seq_view(a) =~= dv.take(i as int + 1).map_values(f));
        }
        i += 1;
    }
    proof {
        assert(dv.take(i as int) =~= dv);
    }
    Json::Arr(a)
}

/// Encode an evaluated lecture, every member written out.
pub open spec fn spec_eval_lecture_to_json(x: EvalLectureView) -> JsonV {
    JsonV::Obj(
        seq![
            ("lecture_code"@, enc_opt_str(x.lecture_code)),
            ("firstname"@, enc_opt_str(x.firstname)),
            ("lastname"@, enc_opt_str(x.lastname)),
            ("s1"@, enc_opt_num(x.s1)),
            ("s2"@, enc_opt_num(x.s2)),
            ("s3"@, enc_opt_num(x.s3)),
            ("s4"@, enc_opt_num(x.s4)),
            ("s5"@, enc_opt_num(x.s5)),
            ("s6"@, enc_opt_num(x.s6)),
            ("invited"@, enc_opt_int(x.invited)),
            ("responses"@, enc_opt_int(x.responses)),
        ],
    )
}

pub open spec fn enc_eval_lecture() -> spec_fn(EvalLectureView) -> JsonV {
    |x: EvalLectureView| spec_eval_lecture_to_json(x)
}

/// Encode an evaluated lecture, exactly as `spec_eval_lecture_to_json` does on the model.
pub fn eval_lecture_to_json(v: &EvalLecture) -> (r: Json)
    ensures
        r@ == spec_eval_lecture_to_json(v@),
{
    let mut es: Vec<(String, Json)> = Vec::new();
    es.push((String::from_str("lecture_code"), json_of_opt_str(&v.lecture_code)));
    es.push((String::from_str("firstname"), json_of_opt_str(&v.firstname)));
    es.push((String::from_str("lastname"), json_of_opt_str(&v.lastname)));
    es.push((String::from_str("s1"), json_of_opt_num(&v.s1)));
    es.push((String::from_str("s2"), json_of_opt_num(&v.s2)));
    es.push((String::from_str("s3"), json_of_opt_num(&v.s3)));
    es.push((String::from_str("s4"), json_of_opt_num(&v.s4)));
    es.push((String::from_str("s5"), json_of_opt_num(&v.s5)));
    es.push((String::from_str("s6"), json_of_opt_num(&v.s6)));
    es.push((String::from_str("invited"), json_of_opt_int(&v.invited)));
    es.push((String::from_str("responses"), json_of_opt_int(&v.responses)));
    proof {
        assert(json_pairs_view(es) =~= match spec_eval_lecture_to_json(v@) {
            JsonV::Obj(entries) => entries,
            _ => Seq::empty(),
        });
    }
    Json::Obj(es)
}

/// Encode a vector of an evaluated lectures as a JSON array.
pub fn json_of_eval_lecture_list(v: &Vec<EvalLecture>) -> (r: Json)
    ensures
        r@ == JsonV::Arr(v.deep_view().map_values(enc_eval_lecture())),
{
    let ghost f = enc_eval_lecture();
    let ghost dv = v.deep_view();
    let mut a: Vec<Json> = Vec::new();
    proof {
        assert(json_seq_view(a) =~= dv.take(0).map_values(f));
    }
    let mut i: usize = 0;
    while i < v.len()
        invariant
            i <= v@.len(),
            dv == v.deep_view(),
            f == enc_eval_lecture(),
            dv.len() == v@.len(),
            a@.len() == i as int,
            json_seq_view(a) == dv.take(i as int).map_values(f),
        decreases v@.len() - i,
    {
        let x = eval_lecture_to_json(&v[i]);
        let ghost aold = a@;
        let ghost jsv_old = json_seq_view(a);
        a.push(x);
        proof {
            assert(dv[i as int] == v@[i as int].deep_view());
            assert forall|j: int| 0 <= j < a@.len() implies #[trigger] json_seq_view(a)[j]
                == dv.take(i as int + 1).map_values(f)[j] by {
                if j < i as int {
                    assert(a@[j] == aold[j]);
                    assert(jsv_old[j] == dv.take(i as int).map_values(f)[j]);
                    assert(dv.take(i as int)[j] == dv.take(i as int + 1)[j]);
                } else {
                    assert(a@[j] == x);
                }
            }
            assert(json_seq_view(a) =~= dv.take(i as int + 1).map_values(f));
        }
        i += 1;
    }
    proof {
        assert(dv.take(i as int) =~= dv);
    }
    Json::Arr(a)
}

/// Encode an evaluation term, every member written out.
pub open spec fn spec_eval_term_to_json(x: EvalTermView) -> JsonV {
    JsonV::Obj(
        seq![
            ("term"@, enc_opt_str(x.term)),
            ("lectures"@, JsonV::Arr(x.lectures.map_values(enc_eval_lecture()))),
        ],
    )
}

pub open spec fn enc_eval_term() -> spec_fn(EvalTermView) -> JsonV {
    |x: EvalTermView| spec_eval_term_to_json(x)
}

/// Encode an evaluation term, exactly as `spec_eval_term_to_json` does on the model.
pub fn eval_term_to_json(v: &EvalTerm) -> (r: Json)
    ensures
        r@ == spec_eval_term_to_json(v@),
{
    let mut es: Vec<(String, Json)> = Vec::new();
    es.push((String::from_str("term"), json_of_opt_str(&v.term)));
    es.push((String::from_str("lectures"), json_of_eval_lecture_list(&v.lectures)));
    proof {
        assert(json_pairs_view(es) =~= match spec_eval_term_to_json(v@) {
            JsonV::Obj(entries) => entries,
            _ => Seq::empty(),
        });
    }
    Json::Obj(es)
}

/// Encode a vector of an evaluation terms as a JSON array.
pub fn json_of_eval_term_list(v: &Vec<EvalTerm>) -> (r: Json)
    ensures
        r@ == JsonV::Arr(v.deep_view().map_values(enc_eval_term())),
{
    let ghost f = enc_eval_term();
    let ghost dv = v.deep_view();
    let mut a: Vec<Json> = Vec::new();
    proof {
        assert(json_seq_view(a) =~= dv.take(0).map_values(f));
    }
    let mut i: usize = 0;
    while i < v.len()
        invariant
            i <= v@.len(),
            dv == v.deep_view(),
            f == enc_eval_term(),
            dv.len() == v@.len(),
            a@.len() == i as int,
            json_seq_view(a) == dv.take(i as int).map_values(f),
        decreases v@.len() - i,
    {
        let x = eval_term_to_json(&v[i]);
        let ghost aold = a@;
        let ghost jsv_old = json_seq_view(a);
        a.push(x);
        proof {
            assert(dv[i as int] == v@[i as int].deep_view());
            assert forall|j: int| 0 <= j < a@.len() implies #[trigger] json_seq_view(a)[j]
                == dv.take(i as int + 1).map_values(f)[j] by {
                if j < i as int {
                    assert(a@[j] == aold[j]);
                    assert(jsv_old[j] == dv.take(i as int).map_values(f)[j]);
                    assert(dv.take(i as int)[j] == dv.take(i as int + 1)[j]);
                } else {
                    assert(a@[j] == x);
                }
            }
            assert(json_seq_view(a) =~= dv.take(i as int + 1).map_values(f));
        }
        i += 1;
    }
    proof {
        assert(dv.take(i as int) =~= dv);
    }
    Json::Arr(a)
}

/// Encode a course evaluation record, every member written out.
pub open spec fn spec_eval_to_json(x: EvalView) -> JsonV {
    JsonV::Obj(
        seq![
            ("id"@, enc_opt_str(x.id)),
            ("name"@, enc_opt_str(x.name)),
            ("campus"@, enc_opt_str(x.campus)),
            ("terms"@, JsonV::Arr(x.terms.map_values(enc_eval_term()))),
            ("last_updated"@, enc_opt_str(x.last_updated)),
        ],
    )
}

pub open spec fn enc_eval() -> spec_fn(EvalView) -> JsonV {
    |x: EvalView| spec_eval_to_json(x)
}

/// Encode a course evaluation record, exactly as `spec_eval_to_json` does on the model.
pub fn eval_to_json(v: &Eval) -> (r: Json)
    ensures
        r@ == spec_eval_to_json(v@),
{
    let mut es: Vec<(String, Json)> = Vec::new();
    es.push((String::from_str("id"), json_of_opt_str(&v.id)));
    es.push((String::from_str("name"), json_of_opt_str(&v.name)));
    es.push((String::from_str("campus"), json_of_opt_str(&v.campus)));
    es.push((String::from_str("terms"), json_of_eval_term_list(&v.terms)));
    es.push((String::from_str("last_updated"), json_of_opt_str(&v.last_updated)));
    proof {
        assert(json_pairs_view(es) =~= match spec_eval_to_json(v@) {
            JsonV::Obj(entries) => entries,
            _ => Seq::empty(),
        });
    }
    Json::Obj(es)
}

/// Encode a vector of a course evaluation records as a JSON array.
pub fn json_of_eval_list(v: &Vec<Eval>) -> (r: Json)
    ensures
        r@ == JsonV::Arr(v.deep_view().map_values(enc_eval())),
{
    let ghost f = enc_eval();
    let ghost dv = v.deep_view();
    let mut a: Vec<Json> = Vec::new();
    proof {
        assert(json_seq_view(a) =~= dv.take(0).map_values(f));
    }
    let mut i: usize = 0;
    while i < v.len()
        invariant
            i <= v@.len(),
            dv == v.deep_view(),
            f == enc_eval(),
            dv.len() == v@.len(),
            a@.len() == i as int,
            json_seq_view(a) == dv.take(i as int).map_values(f),
        decreases v@.len() - i,
    {
        let x = eval_to_json(&v[i]);
        let ghost aold = a@;
        let ghost jsv_old = json_seq_view(a);
        a.push(x);
        proof {
            assert(dv[i as int] == v@[i as int].deep_view());
            assert forall|j: int| 0 <= j < a@.len() implies #[trigger] json_seq_view(a)[j]
                == dv.take(i as int + 1).map_values(f)[j] by {
                if j < i as int {
                    assert(a@[j] == aold[j]);
                    assert(jsv_old[j] == dv.take(i as int).map_values(f)[j]);
                    assert(dv.take(i as int)[j] == dv.take(i as int + 1)[j]);
                } else {
                    assert(a@[j] == x);
                }
            }
            assert(json_seq_view(a) =~= dv.take(i as int + 1).map_values(f));
        }
        i += 1;
    }
    proof {
        assert(dv.take(i as int) =~= dv);
    }
    Json::Arr(a)
}

/// Encode one day's schedule, every member written out.
pub open spec fn spec_day_hours_to_json(x: DayHoursView) -> JsonV {
    JsonV::Obj(
        seq![
            ("closed"@, enc_opt_bool(x.closed)),
            ("open"@, enc_opt_int(x.open)),
            ("close"@, enc_opt_int(x.close)),
        ],
    )
}

pub open spec fn enc_day_hours() -> spec_fn(DayHoursView) -> JsonV {
    |x: DayHoursView| spec_day_hours_to_json(x)
}

/// Encode one day's schedule, exactly as `spec_day_hours_to_json` does on the model.
pub fn day_hours_to_json(v: &DayHours) -> (r: Json)
    ensures
        r@ == spec_day_hours_to_json(v@),
{
    let mut es: Vec<(String, Json)> = Vec::new();
    es.push((String::from_str("closed"), json_of_opt_bool(&v.closed)));
    es.push((String::from_str("open"), json_of_opt_int(&v.open)));
    es.push((String::from_str("close"), json_of_opt_int(&v.close)));
    proof {
        assert(json_pairs_view(es) =~= match spec_day_hours_to_json(v@) {
            JsonV::Obj(entries) => entries,
            _ => Seq::empty(),
        });
    }
    Json::Obj(es)
}

/// Encode an optional one day's schedule member: `null` when absent.
fn json_of_opt_day_hours(v: &Option<DayHours>) -> (r: Json)
    ensures
        r@ == enc_opt_rec(v.deep_view(), enc_day_hours()),
{
    match v {
        Some(x) => day_hours_to_json(x),
        None => Json::Null,
    }
}

/// Encode weekly opening hours, every member written out.
pub open spec fn spec_hours_to_json(x: HoursView) -> JsonV {
    JsonV::Obj(
        seq![
            ("sunday"@, enc_opt_rec(x.sunday, enc_day_hours())),
            ("monday"@, enc_opt_rec(x.monday, enc_day_hours())),
            ("tuesday"@, enc_opt_rec(x.tuesday, enc_day_hours())),
            ("wednesday"@, enc_opt_rec(x.wednesday, enc_day_hours())),
            ("thursday"@, enc_opt_rec(x.thursday, enc_day_hours())),
            ("friday"@, enc_opt_rec(x.friday, enc_day_hours())),
            ("saturday"@, enc_opt_rec(x.saturday, enc_day_hours())),
        ],
    )
}

pub open spec fn enc_hours() -> spec_fn(HoursView) -> JsonV {
    |x: HoursView| spec_hours_to_json(x)
}

/// Encode weekly opening hours, exactly as `spec_hours_to_json` does on the model.
pub fn hours_to_json(v: &Hours) -> (r: Json)
    ensures
        r@ == spec_hours_to_json(v@),
{
    let mut es: Vec<(String, Json)> = Vec::new();
    es.push((String::from_str("sunday"), json_of_opt_day_hours(&v.sunday)));
    es.push((String::from_str("monday"), json_of_opt_day_hours(&v.monday)));
    es.push((String::from_str("tuesday"), json_of_opt_day_hours(&v.tuesday)));
    es.push((String::from_str("wednesday"), json_of_opt_day_hours(&v.wednesday)));
    es.push((String::from_str("thursday"), json_of_opt_day_hours(&v.thursday)));
    es.push((String::from_str("friday"), json_of_opt_day_hours(&v.friday)));
    es.push((String::from_str("saturday"), json_of_opt_day_hours(&v.saturday)));
    proof {
        assert(json_pairs_view(es) =~= match spec_hours_to_json(v@) {
            JsonV::Obj(entries) => entries,
            _ => Seq::empty(),
        });
    }
    Json::Obj(es)
}

/// Encode an optional weekly opening hours member: `null` when absent.
fn json_of_opt_hours(v: &Option<Hours>) -> (r: Json)
    ensures
        r@ == enc_opt_rec(v.deep_view(), enc_hours()),
{
    match v {
        Some(x) => hours_to_json(x),
        None => Json::Null,
    }
}

/// Encode a coordinate pair, every member written out.
pub open spec fn spec_coordinates_to_json(x: CoordinatesView) -> JsonV {
    JsonV::Obj(
        seq![
            ("latitude"@, enc_opt_num(x.latitude)),
            ("longitude"@, enc_opt_num(x.longitude)),
        ],
    )
}

pub open spec fn enc_coordinates() -> spec_fn(CoordinatesView) -> JsonV {
    |x: CoordinatesView| spec_coordinates_to_json(x)
}

/// Encode a coordinate pair, exactly as `spec_coordinates_to_json` does on the model.
pub fn coordinates_to_json(v: &Coordinates) -> (r: Json)
    ensures
        r@ == spec_coordinates_to_json(v@),
{
    let mut es: Vec<(String, Json)> = Vec::new();
    es.push((String::from_str("latitude"), json_of_opt_num(&v.latitude)));
    es.push((String::from_str("longitude"), json_of_opt_num(&v.longitude)));
    proof {
        assert(json_pairs_view(es) =~= match spec_coordinates_to_json(v@) {
            JsonV::Obj(entries) => entries,
            _ => Seq::empty(),
        });
    }
    Json::Obj(es)
}

/// Encode an optional a coordinate pair member: `null` when absent.
fn json_of_opt_coordinates(v: &Option<Coordinates>) -> (r: Json)
    ensures
        r@ == enc_opt_rec(v.deep_view(), enc_coordinates()),
{
    match v {
        Some(x) => coordinates_to_json(x),
        None => Json::Null,
    }
}

/// Encode a food vendor record, every member written out.
pub open spec fn spec_food_to_json(x: FoodView) -> JsonV {
    JsonV::Obj(
        seq![
            ("id"@, enc_opt_str(x.id)),
            ("name"@, enc_opt_str(x.name)),
            ("description"@, enc_opt_str(x.description)),
            ("tags"@, enc_opt_str(x.tags)),
            ("campus"@, enc_opt_str(x.campus)),
            ("address"@, enc_opt_str(x.address)),
            ("coordinates"@, enc_opt_rec(x.coordinates, enc_coordinates())),
            ("hours"@, enc_opt_rec(x.hours, enc_hours())),
            ("image"@, enc_opt_str(x.image)),
            ("url"@, enc_opt_str(x.url)),
            ("twitter"@, enc_opt_str(x.twitter)),
            ("facebook"@, enc_opt_str(x.facebook)),
            ("attributes"@, JsonV::Arr(x.attributes.map_values(enc_string()))),
            ("last_updated"@, enc_opt_str(x.last_updated)),
        ],
    )
}

pub open spec fn enc_food() -> spec_fn(FoodView) -> JsonV {
    |x: FoodView| spec_food_to_json(x)
}

/// Encode a food vendor record, exactly as `spec_food_to_json` does on the model.
pub fn food_to_json(v: &Food) -> (r: Json)
    ensures
        r@ == spec_food_to_json(v@),
{
    let mut es: Vec<(String, Json)> = Vec::new();
    es.push((String::from_str("id"), json_of_opt_str(&v.id)));
    es.push((String::from_str("name"), json_of_opt_str(&v.name)));
    es.push((String::from_str("description"), json_of_opt_str(&v.description)));
    es.push((String::from_str("tags"), json_of_opt_str(&v.tags)));
    es.push((String::from_str("campus"), json_of_opt_str(&v.campus)));
    es.push((String::from_str("address"), json_of_opt_str(&v.address)));
    es.push((String::from_str("coordinates"), json_of_opt_coordinates(&v.coordinates)));
    es.push((String::from_str("hours"), json_of_opt_hours(&v.hours)));
    es.push((String::from_str("image"), json_of_opt_str(&v.image)));
    es.push((String::from_str("url"), json_of_opt_str(&v.url)));
    es.push((String::from_str("twitter"), json_of_opt_str(&v.twitter)));
    es.push((String::from_str("facebook"), json_of_opt_str(&v.facebook)));
    es.push((String::from_str("attributes"), json_of_string_list(&v.attributes)));
    es.push((String::from_str("last_updated"), json_of_opt_str(&v.last_updated)));
    proof {
        assert(json_pairs_view(es) =~= match spec_food_to_json(v@) {
            JsonV::Obj(entries) => entries,
            _ => Seq::empty(),
        });
    }
    Json::Obj(es)
}

/// Encode a vector of a food vendor records as a JSON array.
pub fn json_of_food_list(v: &Vec<Food>) -> (r: Json)
    ensures
        r@ == JsonV::Arr(v.deep_view().map_values(enc_food())),
{
    let ghost f = enc_food();
    let ghost dv = v.deep_view();
    let mut a: Vec<Json> = Vec::new();
    proof {
        assert(json_seq_view(a) =~= dv.take(0).map_values(f));
    }
    let mut i: usize = 0;
    while i < v.len()
        invariant
            i <= v@.len(),
            dv == v.deep_view(),
            f == enc_food(),
            dv.len() == v@.len(),
            a@.len() == i as int,
            json_seq_view(a) == dv.take(i as int).map_values(f),
        decreases v@.len() - i,
    {
        let x = food_to_json(&v[i]);
        let ghost aold = a@;
        let ghost jsv_old = json_seq_view(a);
        a.push(x);
        proof {
            assert(dv[i as int] == v@[i as int].deep_view());
            assert forall|j: int| 0 <= j < a@.len() implies #[trigger] json_seq_view(a)[j]
                == dv.take(i as int + 1).map_values(f)[j] by {
                if j < i as int {
                    assert(a@[j] == aold[j]);
                    assert(jsv_old[j] == dv.take(i as int).map_values(f)[j]);
                    assert(dv.take(i as int)[j] == dv.take(i as int + 1)[j]);
                } else {
                    assert(a@[j] == x);
                }
            }
            assert(json_seq_view(a) =~= dv.take(i as int + 1).map_values(f));
        }
        i += 1;
    }
    proof {
        assert(dv.take(i as int) =~= dv);
    }
    Json::Arr(a)
}

/// Encode a service record, every member written out.
pub open spec fn spec_service_to_json(x: ServiceView) -> JsonV {
    JsonV::Obj(
        seq![
            ("id"@, enc_opt_str(x.id)),
            ("name"@, enc_opt_str(x.name)),
            ("alias"@, enc_opt_str(x.alias)),
            ("building_id"@, enc_opt_str(x.building_id)),
            ("description"@, enc_opt_str(x.description)),
            ("campus"@, enc_opt_str(x.campus)),
            ("address"@, enc_opt_str(x.address)),
            ("image"@, enc_opt_str(x.image)),
            ("coordinates"@, enc_opt_rec(x.coordinates, enc_coordinates())),
            ("tags"@, enc_opt_str(x.tags)),
            ("attributes"@, JsonV::Arr(x.attributes.map_values(enc_string()))),
            ("last_updated"@, enc_opt_str(x.last_updated)),
        ],
    )
}

pub open spec fn enc_service() -> spec_fn(ServiceView) -> JsonV {
    |x: ServiceView| spec_service_to_json(x)
}

/// Encode a service record, exactly as `spec_service_to_json` does on the model.
pub fn service_to_json(v: &Service) -> (r: Json)
    ensures
        r@ == spec_service_to_json(v@),
{
    let mut es: Vec<(String, Json)> = Vec::new();
    es.push((String::from_str("id"), json_of_opt_str(&v.id)));
    es.push((String::from_str("name"), json_of_opt_str(&v.name)));
    es.push((String::from_str("alias"), json_of_opt_str(&v.alias)));
    es.push((String::from_str("building_id"), json_of_opt_str(&v.building_id)));
    es.push((String::from_str("description"), json_of_opt_str(&v.description)));
    es.push((String::from_str("campus"), json_of_opt_str(&v.campus)));
    es.push((String::from_str("address"), json_of_opt_str(&v.address)));
    es.push((String::from_str("image"), json_of_opt_str(&v.image)));
    es.push((String::from_str("coordinates"), json_of_opt_coordinates(&v.coordinates)));
    es.push((String::from_str("tags"), json_of_opt_str(&v.tags)));
    es.push((String::from_str("attributes"), json_of_string_list(&v.attributes)));
    es.push((String::from_str("last_updated"), json_of_opt_str(&v.last_updated)));
    proof {
        assert(json_pairs_view(es) =~= match spec_service_to_json(v@) {
            JsonV::Obj(entries) => entries,
            _ => Seq::empty(),
        });
    }
    Json::Obj(es)
}

/// Encode a vector of a service records as a JSON array.
pub fn json_of_service_list(v: &Vec<Service>) -> (r: Json)
    ensures
        r@ == JsonV::Arr(v.deep_view().map_values(enc_service())),
{
    let ghost f = enc_service();
    let ghost dv = v.deep_view();
    let mut a: Vec<Json> = Vec::new();
    proof {
        assert(json_seq_view(a) =~= dv.take(0).map_values(f));
    }
    let mut i: usize = 0;
    while i < v.len()
        invariant
            i <= v@.len(),
            dv == v.deep_view(),
            f == enc_service(),
            dv.len() == v@.len(),
            a@.len() == i as int,
            json_seq_view(a) == dv.take(i as int).map_values(f),
        decreases v@.len() - i,
    {
        let x = service_to_json(&v[i]);
        let ghost aold = a@;
        let ghost jsv_old = json_seq_view(a);
        a.push(x);
        proof {
            assert(dv[i as int] == v@[i as int].deep_view());
            assert forall|j: int| 0 <= j < a@.len() implies #[trigger] json_seq_view(a)[j]
                == dv.take(i as int + 1).map_values(f)[j] by {
                if j < i as int {
                    assert(a@[j] == aold[j]);
                    assert(jsv_old[j] == dv.take(i as int).map_values(f)[j]);
                    assert(dv.take(i as int)[j] == dv.take(i as int + 1)[j]);
                } else {
                    assert(a@[j] == x);
                }
            }
            assert(json_seq_view(a) =~= dv.take(i as int + 1).map_values(f));
        }
        i += 1;
    }
    proof {
        assert(dv.take(i as int) =~= dv);
    }
    Json::Arr(a)
}

/// Encode a street address, every member written out.
pub open spec fn spec_building_address_to_json(x: BuildingAddressView) -> JsonV {
    JsonV::Obj(
        seq![
            ("street"@, enc_opt_str(x.street)),
            ("city"@, enc_opt_str(x.city)),
            ("province"@, enc_opt_str(x.province)),
            ("country"@, enc_opt_str(x.country)),
            ("postal"@, enc_opt_str(x.postal)),
        ],
    )
}

pub open spec fn enc_building_address() -> spec_fn(BuildingAddressView) -> JsonV {
    |x: BuildingAddressView| spec_building_address_to_json(x)
}

/// Encode a street address, exactly as `spec_building_address_to_json` does on the model.
pub fn building_address_to_json(v: &BuildingAddress) -> (r: Json)
    ensures
        r@ == spec_building_address_to_json(v@),
{
    let mut es: Vec<(String, Json)> = Vec::new();
    es.push((String::from_str("street"), json_of_opt_str(&v.street)));
    es.push((String::from_str("city"), json_of_opt_str(&v.city)));
    es.push((String::from_str("province"), json_of_opt_str(&v.province)));
    es.push((String::from_str("country"), json_of_opt_str(&v.country)));
    es.push((String::from_str("postal"), json_of_opt_str(&v.postal)));
    proof {
        assert(json_pairs_view(es) =~= match spec_building_address_to_json(v@) {
            JsonV::Obj(entries) => entries,
            _ => Seq::empty(),
        });
    }
    Json::Obj(es)
}

/// Encode an optional a street address member: `null` when absent.
fn json_of_opt_building_address(v: &Option<BuildingAddress>) -> (r: Json)
    ensures
        r@ == enc_opt_rec(v.deep_view(), enc_building_address()),
{
    match v {
        Some(x) => building_address_to_json(x),
        None => Json::Null,
    }
}

/// Encode a building record, every member written out.
pub open spec fn spec_building_to_json(x: BuildingView) -> JsonV {
    JsonV::Obj(
        seq![
            ("id"@, enc_opt_str(x.id)),
            ("code"@, enc_opt_str(x.code)),
            ("tags"@, enc_opt_str(x.tags)),
            ("name"@, enc_opt_str(x.name)),
            ("short_name"@, enc_opt_str(x.short_name)),
            ("address"@, enc_opt_rec(x.address, enc_building_address())),
            ("coordinates"@, enc_opt_rec(x.coordinates, enc_coordinates())),
            ("last_updated"@, enc_opt_str(x.last_updated)),
        ],
    )
}

pub open spec fn enc_building() -> spec_fn(BuildingView) -> JsonV {
    |x: BuildingView| spec_building_to_json(x)
}

/// Encode a building record, exactly as `spec_building_to_json` does on the model.
pub fn building_to_json(v: &Building) -> (r: Json)
    ensures
        r@ == spec_building_to_json(v@),
{
    let mut es: Vec<(String, Json)> = Vec::new();
    es.push((String::from_str("id"), json_of_opt_str(&v.id)));
    es.push((String::from_str("code"), json_of_opt_str(&v.code)));
    es.push((String::from_str("tags"), json_of_opt_str(&v.tags)));
    es.push((String::from_str("name"), json_of_opt_str(&v.name)));
    es.push((String::from_str("short_name"), json_of_opt_str(&v.short_name)));
    es.push((String::from_str("address"), json_of_opt_building_address(&v.address)));
    es.push((String::from_str("coordinates"), json_of_opt_coordinates(&v.coordinates)));
    es.push((String::from_str("last_updated"), json_of_opt_str(&v.last_updated)));
    proof {
        assert(json_pairs_view(es) =~= match spec_building_to_json(v@) {
            JsonV::Obj(entries) => entries,
            _ => Seq::empty(),
        });
    }
    Json::Obj(es)
}

/// Encode a vector of a building records as a JSON array.
pub fn json_of_building_list(v: &Vec<Building>) -> (r: Json)
    ensures
        r@ == JsonV::Arr(v.deep_view().map_values(enc_building())),
{
    let ghost f = enc_building();
    let ghost dv = v.deep_view();
    let mut a: Vec<Json> = Vec::new();
    proof {
        assert(json_seq_view(a) =~= dv.take(0).map_values(f));
    }
    let mut i: usize = 0;
    while i < v.len()
        invariant
            i <= v@.len(),
            dv == v.deep_view(),
            f == enc_building(),
            dv.len() == v@.len(),
            a@.len() == i as int,
            json_seq_view(a) == dv.take(i as int).map_values(f),
        decreases v@.len() - i,
    {
        let x = building_to_json(&v[i]);
        let ghost aold = a@;
        let ghost jsv_old = json_seq_view(a);
        a.push(x);
        proof {
            assert(dv[i as int] == v@[i as int].deep_view());
            assert forall|j: int| 0 <= j < a@.len() implies #[trigger] json_seq_view(a)[j]
                == dv.take(i as int + 1).map_values(f)[j] by {
                if j < i as int {
                    assert(a@[j] == aold[j]);
                    assert(jsv_old[j] == dv.take(i as int).map_values(f)[j]);
                    assert(dv.take(i as int)[j] == dv.take(i as int + 1)[j]);
                } else {
                    assert(a@[j] == x);
                }
            }
            assert(json_seq_view(a) =~= dv.take(i as int + 1).map_values(f));
        }
        i += 1;
    }
    proof {
        assert(dv.take(i as int) =~= dv);
    }
    Json::Arr(a)
}

/// Encode a parking record, every member written out.
pub open spec fn spec_parking_to_json(x: ParkingView) -> JsonV {
    JsonV::Obj(
        seq![
            ("id"@, enc_opt_str(x.id)),
            ("name"@, enc_opt_str(x.name)),
            ("alias"@, enc_opt_str(x.alias)),
            ("building_id"@, enc_opt_str(x.building_id)),
            ("description"@, enc_opt_str(x.description)),
            ("campus"@, enc_opt_str(x.campus)),
            ("address"@, enc_opt_str(x.address)),
            ("coordinates"@, enc_opt_rec(x.coordinates, enc_coordinates())),
            ("last_updated"@, enc_opt_str(x.last_updated)),
        ],
    )
}

pub open spec fn enc_parking() -> spec_fn(ParkingView) -> JsonV {
    |x: ParkingView| spec_parking_to_json(x)
}

/// Encode a parking record, exactly as `spec_parking_to_json` does on the model.
pub fn parking_to_json(v: &Parking) -> (r: Json)
    ensures
        r@ == spec_parking_to_json(v@),
{
    let mut es: Vec<(String, Json)> = Vec::new();
    es.push((String::from_str("id"), json_of_opt_str(&v.id)));
    es.push((String::from_str("name"), json_of_opt_str(&v.name)));
    es.push((String::from_str("alias"), json_of_opt_str(&v.alias)));
    es.push((String::from_str("building_id"), json_of_opt_str(&v.building_id)));
    es.push((String::from_str("description"), json_of_opt_str(&v.description)));
    es.push((String::from_str("campus"), json_of_opt_str(&v.campus)));
    es.push((String::from_str("address"), json_of_opt_str(&v.address)));
    es.push((String::from_str("coordinates"), json_of_opt_coordinates(&v.coordinates)));
    es.push((String::from_str("last_updated"), json_of_opt_str(&v.last_updated)));
    proof {
        assert(json_pairs_view(es) =~= match spec_parking_to_json(v@) {
            JsonV::Obj(entries) => entries,
            _ => Seq::empty(),
        });
    }
    Json::Obj(es)
}

/// Encode a vector of a parking records as a JSON array.
pub fn json_of_parking_list(v: &Vec<Parking>) -> (r: Json)
    ensures
        r@ == JsonV::Arr(v.deep_view().map_values(enc_parking())),
{
    let ghost f = enc_parking();
    let ghost dv = v.deep_view();
    let mut a: Vec<Json> = Vec::new();
    proof {
        assert(json_seq_view(a) =~= dv.take(0).map_values(f));
    }
    let mut i: usize = 0;
    while i < v.len()
        invariant
            i <= v@.len(),
            dv == v.deep_view(),
            f == enc_parking(),
            dv.len() == v@.len(),
            a@.len() == i as int,
            json_seq_view(a) == dv.take(i as int).map_values(f),
        decreases v@.len() - i,
    {
        let x = parking_to_json(&v[i]);
        let ghost aold = a@;
        let ghost jsv_old = json_seq_view(a);
        a.push(x);
        proof {
            assert(dv[i as int] == v@[i as int].deep_view());
            assert forall|j: int| 0 <= j < a@.len() implies #[trigger] json_seq_view(a)[j]
                == dv.take(i as int + 1).map_values(f)[j] by {
                if j < i as int {
                    assert(a@[j] == aold[j]);
                    assert(jsv_old[j] == dv.take(i as int).map_values(f)[j]);
                    assert(dv.take(i as int)[j] == dv.take(i as int + 1)[j]);
                } else {
                    assert(a@[j] == x);
                }
            }
            assert(json_seq_view(a) =~= dv.take(i as int + 1).map_values(f));
        }
        i += 1;
    }
    proof {
        assert(dv.take(i as int) =~= dv);
    }
    Json::Arr(a)
}

/// Encode a response envelope, every member written out.
pub open spec fn spec_envelope_to_json<T>(e: ResponseView<T>, f: spec_fn(T) -> JsonV) -> JsonV {
    JsonV::Obj(
        seq![
            ("response"@, JsonV::Arr(e.response.map_values(f))),
            ("status_code"@, enc_opt_int(e.status_code)),
            ("status_message"@, enc_opt_str(e.status_message)),
        ],
    )
}

/// Encode an envelope of a course records, exactly as the spec envelope encoder
/// does with `enc_course`.
pub fn course_envelope_to_json(e: &Response<Course>) -> (r: Json)
    ensures
        r@ == spec_envelope_to_json(e@, enc_course()),
{
    let mut es: Vec<(String, Json)> = Vec::new();
    es.push((String::from_str("response"), json_of_course_list(&e.response)));
    es.push((String::from_str("status_code"), json_of_opt_int(&e.status_code)));
    es.push((String::from_str("status_message"), json_of_opt_str(&e.status_message)));
    proof {
        assert(json_pairs_view(es) =~= match spec_envelope_to_json(e@, enc_course()) {
            JsonV::Obj(entries) => entries,
            _ => Seq::empty(),
        });
    }
    Json::Obj(es)
}

/// Encode an envelope of a textbook records, exactly as the spec envelope encoder
/// does with `enc_textbook`.
pub fn textbook_envelope_to_json(e: &Response<Textbook>) -> (r: Json)
    ensures
        r@ == spec_envelope_to_json(e@, enc_textbook()),
{
    let mut es: Vec<(String, Json)> = Vec::new();
    es.push((String::from_str("response"), json_of_textbook_list(&e.response)));
    es.push((String::from_str("status_code"), json_of_opt_int(&e.status_code)));
    es.push((String::from_str("status_message"), json_of_opt_str(&e.status_message)));
    proof {
        assert(json_pairs_view(es) =~= match spec_envelope_to_json(e@, enc_textbook()) {
            JsonV::Obj(entries) => entries,
            _ => Seq::empty(),
        });
    }
    Json::Obj(es)
}

/// Encode an envelope of an exam records, exactly as the spec envelope encoder
/// does with `enc_exam`.
pub fn exam_envelope_to_json(e: &Response<Exam>) -> (r: Json)
    ensures
        r@ == spec_envelope_to_json(e@, enc_exam()),
{
    let mut es: Vec<(String, Json)> = Vec::new();
    es.push((String::from_str("response"), json_of_exam_list(&e.response)));
    es.push((String::from_str("status_code"), json_of_opt_int(&e.status_code)));
    es.push((String::from_str("status_message"), json_of_opt_str(&e.status_message)));
    proof {
        assert(json_pairs_view(es) =~= match spec_envelope_to_json(e@, enc_exam()) {
            JsonV::Obj(entries) => entries,
            _ => Seq::empty(),
        });
    }
    Json::Obj(es)
}

/// Encode an envelope of a course evaluation records, exactly as the spec envelope encoder
/// does with `enc_eval`.
pub fn eval_envelope_to_json(e: &Response<Eval>) -> (r: Json)
    ensures
        r@ == spec_envelope_to_json(e@, enc_eval()),
{
    let mut es: Vec<(String, Json)> = Vec::new();
    es.push((String::from_str("response"), json_of_eval_list(&e.response)));
    es.push((String::from_str("status_code"), json_of_opt_int(&e.status_code)));
    es.push((String::from_str("status_message"), json_of_opt_str(&e.status_message)));
    proof {
        assert(json_pairs_view(es) =~= match spec_envelope_to_json(e@, enc_eval()) {
            JsonV::Obj(entries) => entries,
            _ => Seq::empty(),
        });
    }
    Json::Obj(es)
}

/// Encode an envelope of a food vendor records, exactly as the spec envelope encoder
/// does with `enc_food`.
pub fn food_envelope_to_json(e: &Response<Food>) -> (r: Json)
    ensures
        r@ == spec_envelope_to_json(e@, enc_food()),
{
    let mut es: Vec<(String, Json)> = Vec::new();
    es.push((String::from_str("response"), json_of_food_list(&e.response)));
    es.push((String::from_str("status_code"), json_of_opt_int(&e.status_code)));
    es.push((String::from_str("status_message"), json_of_opt_str(&e.status_message)));
    proof {
        assert(json_pairs_view(es) =~= match spec_envelope_to_json(e@, enc_food()) {
            JsonV::Obj(entries) => entries,
            _ => Seq::empty(),
        });
    }
    Json::Obj(es)
}

/// Encode an envelope of a service records, exactly as the spec envelope encoder
/// does with `enc_service`.
pub fn service_envelope_to_json(e: &Response<Service>) -> (r: Json)
    ensures
        r@ == spec_envelope_to_json(e@, enc_service()),
{
    let mut es: Vec<(String, Json)> = Vec::new();
    es.push((String::from_str("response"), json_of_service_list(&e.response)));
    es.push((String::from_str("status_code"), json_of_opt_int(&e.status_code)));
    es.push((String::from_str("status_message"), json_of_opt_str(&e.status_message)));
    proof {
        assert(json_pairs_view(es) =~= match spec_envelope_to_json(e@, enc_service()) {
            JsonV::Obj(entries) => entries,
            _ => Seq::empty(),
        });
    }
    Json::Obj(es)
}

/// Encode an envelope of a building records, exactly as the spec envelope encoder
/// does with `enc_building`.
pub fn building_envelope_to_json(e: &Response<Building>) -> (r: Json)
    ensures
        r@ == spec_envelope_to_json(e@, enc_building()),
{
    let mut es: Vec<(String, Json)> = Vec::new();
    es.push((String::from_str("response"), json_of_building_list(&e.response)));
    es.push((String::from_str("status_code"), json_of_opt_int(&e.status_code)));
    es.push((String::from_str("status_message"), json_of_opt_str(&e.status_message)));
    proof {
        assert(json_pairs_view(es) =~= match spec_envelope_to_json(e@, enc_building()) {
            JsonV::Obj(entries) => entries,
            _ => Seq::empty(),
        });
    }
    Json::Obj(es)
}

/// Encode an envelope of a parking records, exactly as the spec envelope encoder
/// does with `enc_parking`.
pub fn parking_envelope_to_json(e: &Response<Parking>) -> (r: Json)
    ensures
        r@ == spec_envelope_to_json(e@, enc_parking()),
{
    let mut es: Vec<(String, Json)> = Vec::new();
    es.push((String::from_str("response"), json_of_parking_list(&e.response)));
    es.push((String::from_str("status_code"), json_of_opt_int(&e.status_code)));
    es.push((String::from_str("status_message"), json_of_opt_str(&e.status_message)));
    proof {
        assert(json_pairs_view(es) =~= match spec_envelope_to_json(e@, enc_parking()) {
            JsonV::Obj(entries) => entries,
            _ => Seq::empty(),
        });
    }
    Json::Obj(es)
}

} // verus!
