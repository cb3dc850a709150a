//! Round-trip laws of the codec: encoding any record and decoding the
//! result returns the very same record, for every record type and for the
//! response envelope.
//!
//! Together with the exact decoder and encoder contracts these laws pin the
//! schema down: every member an encoder writes is read back to the value it
//! came from.

use vstd::prelude::*;

use crate::decode::{
    dec_building, dec_building_address, dec_coordinates, dec_course, dec_courses_meeting_section,
    dec_day_hours, dec_eval, dec_eval_lecture, dec_eval_term, dec_exam, dec_exam_section,
    dec_food, dec_hours, dec_parking, dec_service, dec_string, dec_textbook,
    dec_textbooks_course, dec_textbooks_meeting_section, dec_time, spec_building_address_from_json,
    spec_building_address_from_obj, spec_building_from_json, spec_building_from_obj,
    spec_coordinates_from_json, spec_coordinates_from_obj, spec_course_from_json,
    spec_course_from_obj, spec_courses_meeting_section_from_json,
    spec_courses_meeting_section_from_obj, spec_day_hours_from_json, spec_day_hours_from_obj,
    spec_envelope_from_json, spec_eval_from_json, spec_eval_from_obj, spec_eval_lecture_from_json,
    spec_eval_lecture_from_obj, spec_eval_term_from_json, spec_eval_term_from_obj,
    spec_exam_from_json, spec_exam_from_obj, spec_exam_section_from_json,
    spec_exam_section_from_obj, spec_food_from_json, spec_food_from_obj, spec_hours_from_json,
    spec_hours_from_obj, spec_parking_from_json, spec_parking_from_obj, spec_service_from_json,
    spec_service_from_obj, spec_string_from_json, spec_textbook_from_json, spec_textbook_from_obj,
    spec_textbooks_course_from_json, spec_textbooks_course_from_obj,
    spec_textbooks_meeting_section_from_json, spec_textbooks_meeting_section_from_obj,
    spec_time_from_json, spec_time_from_obj,
};
use crate::encode::{
    enc_building, enc_building_address, enc_coordinates, enc_course, enc_courses_meeting_section,
    enc_day_hours, enc_eval, enc_eval_lecture, enc_eval_term, enc_exam, enc_exam_section,
    enc_food, enc_hours, enc_opt_bool, enc_opt_int, enc_opt_num, enc_opt_rec, enc_opt_str,
    enc_parking, enc_service, enc_string, enc_textbook, enc_textbooks_course,
    enc_textbooks_meeting_section, enc_time, spec_building_address_to_json,
    spec_building_to_json, spec_coordinates_to_json, spec_course_to_json,
    spec_courses_meeting_section_to_json, spec_day_hours_to_json, spec_envelope_to_json,
    spec_eval_lecture_to_json, spec_eval_term_to_json, spec_eval_to_json,
    spec_exam_section_to_json, spec_exam_to_json, spec_food_to_json, spec_hours_to_json,
    spec_parking_to_json, spec_service_to_json, spec_textbook_to_json,
    spec_textbooks_course_to_json, spec_textbooks_meeting_section_to_json, spec_time_to_json,
};
use crate::json::{
    field_bool, field_int, field_list, field_num, field_rec, field_str, lemma_decode_encoded_list,
    lemma_obj_get_at, spec_decode_list, spec_obj_get, JsonV,
};
use crate::records::{
    BuildingAddressView, BuildingView, CoordinatesView, CourseView, CoursesMeetingSectionView,
    DayHoursView, EvalLectureView, EvalTermView, EvalView, ExamSectionView, ExamView, FoodView,
    HoursView, ParkingView, ResponseView, ServiceView, TextbookView, TextbooksCourseView,
    TextbooksMeetingSectionView, TimeView,
};
use crate::text::lemma_parse_i64_print;

verus! {

/// Law: decoding an encoded meeting time returns the same value.
#[verifier::rlimit(100)]
pub proof fn lemma_time_round_trip(x: TimeView)
    ensures
        spec_time_from_json(spec_time_to_json(x)) == Some(x),
{
    reveal_strlit("day");
    reveal_strlit("start");
    reveal_strlit("end");
    reveal_strlit("duration");
    reveal_strlit("location");
    assert("day"@ =~= seq!['d', 'a', 'y']);
    assert("start"@ =~= seq!['s', 't', 'a', 'r', 't']);
    assert("end"@ =~= seq!['e', 'n', 'd']);
    assert("duration"@ =~= seq!['d', 'u', 'r', 'a', 't', 'i', 'o', 'n']);
    assert("location"@ =~= seq!['l', 'o', 'c', 'a', 't', 'i', 'o', 'n']);
    let es = spec_time_to_json(x)->Obj_0;
    lemma_obj_get_at(es, 0);
    assert(spec_obj_get(es, "day"@) == Some(enc_opt_str(x.day)));
    assert(forall|j: int| #![trigger es[j]] 0 <= j < 1 ==> es[j].0 != es[1].0);
    lemma_obj_get_at(es, 1);
    assert(spec_obj_get(es, "start"@) == Some(enc_opt_int(x.start)));
    assert(forall|j: int| #![trigger es[j]] 0 <= j < 2 ==> es[j].0 != es[2].0);
    lemma_obj_get_at(es, 2);
    assert(spec_obj_get(es, "end"@) == Some(enc_opt_int(x.end)));
    assert(forall|j: int| #![trigger es[j]] 0 <= j < 3 ==> es[j].0 != es[3].0);
    lemma_obj_get_at(es, 3);
    assert(spec_obj_get(es, "duration"@) == Some(enc_opt_int(x.duration)));
    assert(forall|j: int| #![trigger es[j]] 0 <= j < 4 ==> es[j].0 != es[4].0);
    lemma_obj_get_at(es, 4);
    assert(spec_obj_get(es, "location"@) == Some(enc_opt_str(x.location)));
    assert(field_str(es, "day"@) == Some(x.day));
    if x.start is Some {
        lemma_parse_i64_print(x.start.unwrap());
    }
    assert(field_int(es, "start"@) == Some(x.start));
    if x.end is Some {
        lemma_parse_i64_print(x.end.unwrap());
    }
    assert(field_int(es, "end"@) == Some(x.end));
    if x.duration is Some {
        lemma_parse_i64_print(x.duration.unwrap());
    }
    assert(field_int(es, "duration"@) == Some(x.duration));
    assert(field_str(es, "location"@) == Some(x.location));
    assert(spec_time_from_obj(es) == Some(x));
}

/// Law: decoding an encoded course meeting section returns the same value.
#[verifier::rlimit(100)]
pub proof fn lemma_courses_meeting_section_round_trip(x: CoursesMeetingSectionView)
    ensures
        spec_courses_meeting_section_from_json(spec_courses_meeting_section_to_json(x)) == Some(x),
{
    reveal_strlit("code");
    reveal_strlit("instructors");
    reveal_strlit("times");
    reveal_strlit("size");
    reveal_strlit("enrollment");
    reveal_strlit("waitlist_option");
    reveal_strlit("delivery");
    assert("code"@ =~= seq!['c', 'o', 'd', 'e']);
    assert("instructors"@ =~= seq!['i', 'n', 's', 't', 'r', 'u', 'c', 't', 'o', 'r', 's']);
    assert("times"@ =~= seq!['t', 'i', 'm', 'e', 's']);
    assert("size"@ =~= seq!['s', 'i', 'z', 'e']);
    assert("enrollment"@ =~= seq!['e', 'n', 'r', 'o', 'l', 'l', 'm', 'e', 'n', 't']);
    assert("waitlist_option"@ =~= seq!['w', 'a', 'i', 't', 'l', 'i', 's', 't', '_', 'o', 'p', 't', 'i', 'o', 'n']);
    assert("delivery"@ =~= seq!['d', 'e', 'l', 'i', 'v', 'e', 'r', 'y']);
    let es = spec_courses_meeting_section_to_json(x)->Obj_0;
    lemma_obj_get_at(es, 0);
    assert(spec_obj_get(es, "code"@) == Some(enc_opt_str(x.code)));
    assert(forall|j: int| #![trigger es[j]] 0 <= j < 1 ==> es[j].0 != es[1].0);
    lemma_obj_get_at(es, 1);
    assert(spec_obj_get(es, "instructors"@) == Some(JsonV::Arr(x.instructors.map_values(enc_string()))));
    assert(forall|j: int| #![trigger es[j]] 0 <= j < 2 ==> es[j].0 != es[2].0);
    lemma_obj_get_at(es, 2);
    assert(spec_obj_get(es, "times"@) == Some(JsonV::Arr(x.times.map_values(enc_time()))));
    assert(forall|j: int| #![trigger es[j]] 0 <= j < 3 ==> es[j].0 != es[3].0);
    lemma_obj_get_at(es, 3);
    assert(spec_obj_get(es, "size"@) == Some(enc_opt_int(x.size)));
    assert(forall|j: int| #![trigger es[j]] 0 <= j < 4 ==> es[j].0 != es[4].0);
    lemma_obj_get_at(es, 4);
    assert(spec_obj_get(es, "enrollment"@) == Some(enc_opt_int(x.enrollment)));
    assert(forall|j: int| #![trigger es[j]] 0 <= j < 5 ==> es[j].0 != es[5].0);
    lemma_obj_get_at(es, 5);
    assert(spec_obj_get(es, "waitlist_option"@) == Some(enc_opt_bool(x.waitlist_option)));
    assert(forall|j: int| #![trigger es[j]] 0 <= j < 6 ==> es[j].0 != es[6].0);
    lemma_obj_get_at(es, 6);
    assert(spec_obj_get(es, "delivery"@) == Some(enc_opt_str(x.delivery)));
    assert(field_str(es, "code"@) == Some(x.code));
    assert forall|i: int| 0 <= i < x.instructors.len() implies dec_string()(
        enc_string()(#[trigger] x.instructors[i]),
    ) == Some(x.instructors[i]) by {
    }
    lemma_decode_encoded_list(x.instructors, enc_string(), dec_string());
    assert(field_list(es, "instructors"@, dec_string()) == Some(x.instructors));
    assert forall|i: int| 0 <= i < x.times.len() implies dec_time()(
        enc_time()(#[trigger] x.times[i]),
    ) == Some(x.times[i]) by {
        lemma_time_round_trip(x.times[i]);
    }
    lemma_decode_encoded_list(x.times, enc_time(), dec_time());
    assert(field_list(es, "times"@, dec_time()) == Some(x.times));
    if x.size is Some {
        lemma_parse_i64_print(x.size.unwrap());
    }
    assert(field_int(es, "size"@) == Some(x.size));
    if x.enrollment is Some {
        lemma_parse_i64_print(x.enrollment.unwrap());
    }
    assert(field_int(es, "enrollment"@) == Some(x.enrollment));
    assert(field_bool(es, "waitlist_option"@) == Some(x.waitlist_option));
    assert(field_str(es, "delivery"@) == Some(x.delivery));
    assert(spec_courses_meeting_section_from_obj(es) == Some(x));
}

/// Law: decoding an encoded course record returns the same value.
#[verifier::rlimit(100)]
pub proof fn lemma_course_round_trip(x: CourseView)
    ensures
        spec_course_from_json(spec_course_to_json(x)) == Some(x),
{
    reveal_strlit("id");
    reveal_strlit("code");
    reveal_strlit("name");
    reveal_strlit("description");
    reveal_strlit("division");
    reveal_strlit("department");
    reveal_strlit("prerequisites");
    reveal_strlit("corequisites");
    reveal_strlit("exclusions");
    reveal_strlit("recommended_preparation");
    reveal_strlit("level");
    reveal_strlit("campus");
    reveal_strlit("term");
    reveal_strlit("arts_and_science_breadth");
    reveal_strlit("arts_and_science_distribution");
    reveal_strlit("utm_distribution");
    reveal_strlit("utsc_breadth");
    reveal_strlit("apsc_electives");
    reveal_strlit("meeting_sections");
    reveal_strlit("last_updated");
    assert("id"@ =~= seq!['i', 'd']);
    assert("code"@ =~= seq!['c', 'o', 'd', 'e']);
    assert("name"@ =~= seq!['n', 'a', 'm', 'e']);
    assert("description"@ =~= seq!['d', 'e', 's', 'c', 'r', 'i', 'p', 't', 'i', 'o', 'n']);
    assert("division"@ =~= seq!['d', 'i', 'v', 'i', 's', 'i', 'o', 'n']);
    assert("department"@ =~= seq!['d', 'e', 'p', 'a', 'r', 't', 'm', 'e', 'n', 't']);
    assert("prerequisites"@ =~= seq!['p', 'r', 'e', 'r', 'e', 'q', 'u', 'i', 's', 'i', 't', 'e', 's']);
    assert("corequisites"@ =~= seq!['c', 'o', 'r', 'e', 'q', 'u', 'i', 's', 'i', 't', 'e', 's']);
    assert("exclusions"@ =~= seq!['e', 'x', 'c', 'l', 'u', 's', 'i', 'o', 'n', 's']);
    assert("recommended_preparation"@ =~= seq!['r', 'e', 'c', 'o', 'm', 'm', 'e', 'n', 'd', 'e', 'd', '_', 'p', 'r', 'e', 'p', 'a', 'r', 'a', 't', 'i', 'o', 'n']);
    assert("level"@ =~= seq!['l', 'e', 'v', 'e', 'l']);
    assert("campus"@ =~= seq!['c', 'a', 'm', 'p', 'u', 's']);
    assert("term"@ =~= seq!['t', 'e', 'r', 'm']);
    assert("arts_and_science_breadth"@ =~= seq!['a', 'r', 't', 's', '_', 'a', 'n', 'd', '_', 's', 'c', 'i', 'e', 'n', 'c', 'e', '_', 'b', 'r', 'e', 'a', 'd', 't', 'h']);
    assert("arts_and_science_distribution"@ =~= seq!['a', 'r', 't', 's', '_', 'a', 'n', 'd', '_', 's', 'c', 'i', 'e', 'n', 'c', 'e', '_', 'd', 'i', 's', 't', 'r', 'i', 'b', 'u', 't', 'i', 'o', 'n']);
    assert("utm_distribution"@ =~= seq!['u', 't', 'm', '_', 'd', 'i', 's', 't', 'r', 'i', 'b', 'u', 't', 'i', 'o', 'n']);
    assert("utsc_breadth"@ =~= seq!['u', 't', 's', 'c', '_', 'b', 'r', 'e', 'a', 'd', 't', 'h']);
    assert("apsc_electives"@ =~= seq!['a', 'p', 's', 'c', '_', 'e', 'l', 'e', 'c', 't', 'i', 'v', 'e', 's']);
    assert("meeting_sections"@ =~= seq!['m', 'e', 'e', 't', 'i', 'n', 'g', '_', 's', 'e', 'c', 't', 'i', 'o', 'n', 's']);
    assert("last_updated"@ =~= seq!['l', 'a', 's', 't', '_', 'u', 'p', 'd', 'a', 't', 'e', 'd']);
    let es = spec_course_to_json(x)->Obj_0;
    lemma_obj_get_at(es, 0);
    assert(spec_obj_get(es, "id"@) == Some(enc_opt_str(x.id)));
    assert(forall|j: int| #![trigger es[j]] 0 <= j < 1 ==> es[j].0 != es[1].0);
    lemma_obj_get_at(es, 1);
    assert(spec_obj_get(es, "code"@) == Some(enc_opt_str(x.code)));
    assert(forall|j: int| #![trigger es[j]] 0 <= j < 2 ==> es[j].0 != es[2].0);
    lemma_obj_get_at(es, 2);
    assert(spec_obj_get(es, "name"@) == Some(enc_opt_str(x.name)));
    assert(forall|j: int| #![trigger es[j]] 0 <= j < 3 ==> es[j].0 != es[3].0);
    lemma_obj_get_at(es, 3);
    assert(spec_obj_get(es, "description"@) == Some(enc_opt_str(x.description)));
    assert(forall|j: int| #![trigger es[j]] 0 <= j < 4 ==> es[j].0 != es[4].0);
    lemma_obj_get_at(es, 4);
    assert(spec_obj_get(es, "division"@) == Some(enc_opt_str(x.division)));
    assert(forall|j: int| #![trigger es[j]] 0 <= j < 5 ==> es[j].0 != es[5].0);
    lemma_obj_get_at(es, 5);
    assert(spec_obj_get(es, "department"@) == Some(enc_opt_str(x.department)));
    assert(forall|j: int| #![trigger es[j]] 0 <= j < 6 ==> es[j].0 != es[6].0);
    lemma_obj_get_at(es, 6);
    assert(spec_obj_get(es, "prerequisites"@) == Some(enc_opt_str(x.prerequisites)));
    assert(forall|j: int| #![trigger es[j]] 0 <= j < 7 ==> es[j].0 != es[7].0);
    lemma_obj_get_at(es, 7);
    assert(spec_obj_get(es, "corequisites"@) == Some(enc_opt_str(x.corequisites)));
    assert(forall|j: int| #![trigger es[j]] 0 <= j < 8 ==> es[j].0 != es[8].0);
    lemma_obj_get_at(es, 8);
    assert(spec_obj_get(es, "exclusions"@) == Some(enc_opt_str(x.exclusions)));
    assert(forall|j: int| #![trigger es[j]] 0 <= j < 9 ==> es[j].0 != es[9].0);
    lemma_obj_get_at(es, 9);
    assert(spec_obj_get(es, "recommended_preparation"@) == Some(enc_opt_str(x.recommended_preparation)));
    assert(forall|j: int| #![trigger es[j]] 0 <= j < 10 ==> es[j].0 != es[10].0);
    lemma_obj_get_at(es, 10);
    assert(spec_obj_get(es, "level"@) == Some(enc_opt_str(x.level)));
    assert(forall|j: int| #![trigger es[j]] 0 <= j < 11 ==> es[j].0 != es[11].0);
    lemma_obj_get_at(es, 11);
    assert(spec_obj_get(es, "campus"@) == Some(enc_opt_str(x.campus)));
    assert(forall|j: int| #![trigger es[j]] 0 <= j < 12 ==> es[j].0 != es[12].0);
    lemma_obj_get_at(es, 12);
    assert(spec_obj_get(es, "term"@) == Some(enc_opt_str(x.term)));
    assert(forall|j: int| #![trigger es[j]] 0 <= j < 13 ==> es[j].0 != es[13].0);
    lemma_obj_get_at(es, 13);
    assert(spec_obj_get(es, "arts_and_science_breadth"@) == Some(enc_opt_str(x.arts_and_science_breadth)));
    assert(forall|j: int| #![trigger es[j]] 0 <= j < 14 ==> es[j].0 != es[14].0);
    lemma_obj_get_at(es, 14);
    assert(spec_obj_get(es, "arts_and_science_distribution"@) == Some(enc_opt_str(x.arts_and_science_distribution)));
    assert(forall|j: int| #![trigger es[j]] 0 <= j < 15 ==> es[j].0 != es[15].0);
    lemma_obj_get_at(es, 15);
    assert(spec_obj_get(es, "utm_distribution"@) == Some(enc_opt_str(x.utm_distribution)));
    assert(forall|j: int| #![trigger es[j]] 0 <= j < 16 ==> es[j].0 != es[16].0);
    lemma_obj_get_at(es, 16);
    assert(spec_obj_get(es, "utsc_breadth"@) == Some(enc_opt_str(x.utsc_breadth)));
    assert(forall|j: int| #![trigger es[j]] 0 <= j < 17 ==> es[j].0 != es[17].0);
    lemma_obj_get_at(es, 17);
    assert(spec_obj_get(es, "apsc_electives"@) == Some(enc_opt_str(x.apsc_electives)));
    assert(forall|j: int| #![trigger es[j]] 0 <= j < 18 ==> es[j].0 != es[18].0);
    lemma_obj_get_at(es, 18);
    assert(spec_obj_get(es, "meeting_sections"@) == Some(JsonV::Arr(x.meeting_sections.map_values(enc_courses_meeting_section()))));
    assert(forall|j: int| #![trigger es[j]] 0 <= j < 19 ==> es[j].0 != es[19].0);
    lemma_obj_get_at(es, 19);
    assert(spec_obj_get(es, "last_updated"@) == Some(enc_opt_str(x.last_updated)));
    assert(field_str(es, "id"@) == Some(x.id));
    assert(field_str(es, "code"@) == Some(x.code));
    assert(field_str(es, "name"@) == Some(x.name));
    assert(field_str(es, "description"@) == Some(x.description));
    assert(field_str(es, "division"@) == Some(x.division));
    assert(field_str(es, "department"@) == Some(x.department));
    assert(field_str(es, "prerequisites"@) == Some(x.prerequisites));
    assert(field_str(es, "corequisites"@) == Some(x.corequisites));
    assert(field_str(es, "exclusions"@) == Some(x.exclusions));
    assert(field_str(es, "recommended_preparation"@) == Some(x.recommended_preparation));
    assert(field_str(es, "level"@) == Some(x.level));
    assert(field_str(es, "campus"@) == Some(x.campus));
    assert(field_str(es, "term"@) == Some(x.term));
    assert(field_str(es, "arts_and_science_breadth"@) == Some(x.arts_and_science_breadth));
    assert(field_str(es, "arts_and_science_distribution"@) == Some(x.arts_and_science_distribution));
    assert(field_str(es, "utm_distribution"@) == Some(x.utm_distribution));
    assert(field_str(es, "utsc_breadth"@) == Some(x.utsc_breadth));
    assert(field_str(es, "apsc_electives"@) == Some(x.apsc_electives));
    assert forall|i: int| 0 <= i < x.meeting_sections.len() implies dec_courses_meeting_section()(
        enc_courses_meeting_section()(#[trigger] x.meeting_sections[i]),
    ) == Some(x.meeting_sections[i]) by {
        lemma_courses_meeting_section_round_trip(x.meeting_sections[i]);
    }
    lemma_decode_encoded_list(x.meeting_sections, enc_courses_meeting_section(), dec_courses_meeting_section());
    assert(field_list(es, "meeting_sections"@, dec_courses_meeting_section()) == Some(x.meeting_sections));
    assert(field_str(es, "last_updated"@) == Some(x.last_updated));
    assert(spec_course_from_obj(es) == Some(x));
}

/// Law: decoding an encoded textbook meeting section returns the same value.
#[verifier::rlimit(100)]
pub proof fn lemma_textbooks_meeting_section_round_trip(x: TextbooksMeetingSectionView)
    ensures
        spec_textbooks_meeting_section_from_json(spec_textbooks_meeting_section_to_json(x)) == Some(x),
{
    reveal_strlit("code");
    reveal_strlit("instructors");
    assert("code"@ =~= seq!['c', 'o', 'd', 'e']);
    assert("instructors"@ =~= seq!['i', 'n', 's', 't', 'r', 'u', 'c', 't', 'o', 'r', 's']);
    let es = spec_textbooks_meeting_section_to_json(x)->Obj_0;
    lemma_obj_get_at(es, 0);
    assert(spec_obj_get(es, "code"@) == Some(enc_opt_str(x.code)));
    assert(forall|j: int| #![trigger es[j]] 0 <= j < 1 ==> es[j].0 != es[1].0);
    lemma_obj_get_at(es, 1);
    assert(spec_obj_get(es, "instructors"@) == Some(JsonV::Arr(x.instructors.map_values(enc_string()))));
    assert(field_str(es, "code"@) == Some(x.code));
    assert forall|i: int| 0 <= i < x.instructors.len() implies dec_string()(
        enc_string()(#[trigger] x.instructors[i]),
    ) == Some(x.instructors[i]) by {
    }
    lemma_decode_encoded_list(x.instructors, enc_string(), dec_string());
    assert(field_list(es, "instructors"@, dec_string()) == Some(x.instructors));
    assert(spec_textbooks_meeting_section_from_obj(es) == Some(x));
}

/// Law: decoding an encoded textbook course reference returns the same value.
#[verifier::rlimit(100)]
pub proof fn lemma_textbooks_course_round_trip(x: TextbooksCourseView)
    ensures
        spec_textbooks_course_from_json(spec_textbooks_course_to_json(x)) == Some(x),
{
    reveal_strlit("id");
    reveal_strlit("code");
    reveal_strlit("requirement");
    reveal_strlit("meeting_sections");
    assert("id"@ =~= seq!['i', 'd']);
    assert("code"@ =~= seq!['c', 'o', 'd', 'e']);
    assert("requirement"@ =~= seq!['r', 'e', 'q', 'u', 'i', 'r', 'e', 'm', 'e', 'n', 't']);
    assert("meeting_sections"@ =~= seq!['m', 'e', 'e', 't', 'i', 'n', 'g', '_', 's', 'e', 'c', 't', 'i', 'o', 'n', 's']);
    let es = spec_textbooks_course_to_json(x)->Obj_0;
    lemma_obj_get_at(es, 0);
    assert(spec_obj_get(es, "id"@) == Some(enc_opt_str(x.id)));
    assert(forall|j: int| #![trigger es[j]] 0 <= j < 1 ==> es[j].0 != es[1].0);
    lemma_obj_get_at(es, 1);
    assert(spec_obj_get(es, "code"@) == Some(enc_opt_str(x.code)));
    assert(forall|j: int| #![trigger es[j]] 0 <= j < 2 ==> es[j].0 != es[2].0);
    lemma_obj_get_at(es, 2);
    assert(spec_obj_get(es, "requirement"@) == Some(enc_opt_str(x.requirement)));
    assert(forall|j: int| #![trigger es[j]] 0 <= j < 3 ==> es[j].0 != es[3].0);
    lemma_obj_get_at(es, 3);
    assert(spec_obj_get(es, "meeting_sections"@) == Some(JsonV::Arr(x.meeting_sections.map_values(enc_textbooks_meeting_section()))));
    assert(field_str(es, "id"@) == Some(x.id));
    assert(field_str(es, "code"@) == Some(x.code));
    assert(field_str(es, "requirement"@) == Some(x.requirement));
    assert forall|i: int| 0 <= i < x.meeting_sections.len() implies dec_textbooks_meeting_section()(
        enc_textbooks_meeting_section()(#[trigger] x.meeting_sections[i]),
    ) == Some(x.meeting_sections[i]) by {
        lemma_textbooks_meeting_section_round_trip(x.meeting_sections[i]);
    }
    lemma_decode_encoded_list(x.meeting_sections, enc_textbooks_meeting_section(), dec_textbooks_meeting_section());
    assert(field_list(es, "meeting_sections"@, dec_textbooks_meeting_section()) == Some(x.meeting_sections));
    assert(spec_textbooks_course_from_obj(es) == Some(x));
}

/// Law: decoding an encoded textbook record returns the same value.
#[verifier::rlimit(100)]
pub proof fn lemma_textbook_round_trip(x: TextbookView)
    ensures
        spec_textbook_from_json(spec_textbook_to_json(x)) == Some(x),
{
    reveal_strlit("id");
    reveal_strlit("isbn");
    reveal_strlit("title");
    reveal_strlit("edition");
    reveal_strlit("author");
    reveal_strlit("image");
    reveal_strlit("price");
    reveal_strlit("url");
    reveal_strlit("courses");
    reveal_strlit("last_updated");
    assert("id"@ =~= seq!['i', 'd']);
    assert("isbn"@ =~= seq!['i', 's', 'b', 'n']);
    assert("title"@ =~= seq!['t', 'i', 't', 'l', 'e']);
    assert("edition"@ =~= seq!['e', 'd', 'i', 't', 'i', 'o', 'n']);
    assert("author"@ =~= seq!['a', 'u', 't', 'h', 'o', 'r']);
    assert("image"@ =~= seq!['i', 'm', 'a', 'g', 'e']);
    assert("price"@ =~= seq!['p', 'r', 'i', 'c', 'e']);
    assert("url"@ =~= seq!['u', 'r', 'l']);
    assert("courses"@ =~= seq!['c', 'o', 'u', 'r', 's', 'e', 's']);
    assert("last_updated"@ =~= seq!['l', 'a', 's', 't', '_', 'u', 'p', 'd', 'a', 't', 'e', 'd']);
    let es = spec_textbook_to_json(x)->Obj_0;
    lemma_obj_get_at(es, 0);
    assert(spec_obj_get(es, "id"@) == Some(enc_opt_str(x.id)));
    assert(forall|j: int| #![trigger es[j]] 0 <= j < 1 ==> es[j].0 != es[1].0);
    lemma_obj_get_at(es, 1);
    assert(spec_obj_get(es, "isbn"@) == Some(enc_opt_str(x.isbn)));
    assert(forall|j: int| #![trigger es[j]] 0 <= j < 2 ==> es[j].0 != es[2].0);
    lemma_obj_get_at(es, 2);
    assert(spec_obj_get(es, "title"@) == Some(enc_opt_str(x.title)));
    assert(forall|j: int| #![trigger es[j]] 0 <= j < 3 ==> es[j].0 != es[3].0);
    lemma_obj_get_at(es, 3);
    assert(spec_obj_get(es, "edition"@) == Some(enc_opt_int(x.edition)));
    assert(forall|j: int| #![trigger es[j]] 0 <= j < 4 ==> es[j].0 != es[4].0);
    lemma_obj_get_at(es, 4);
    assert(spec_obj_get(es, "author"@) == Some(enc_opt_str(x.author)));
    assert(forall|j: int| #![trigger es[j]] 0 <= j < 5 ==> es[j].0 != es[5].0);
    lemma_obj_get_at(es, 5);
    assert(spec_obj_get(es, "image"@) == Some(enc_opt_str(x.image)));
    assert(forall|j: int| #![trigger es[j]] 0 <= j < 6 ==> es[j].0 != es[6].0);
    lemma_obj_get_at(es, 6);
    assert(spec_obj_get(es, "price"@) == Some(enc_opt_num(x.price)));
    assert(forall|j: int| #![trigger es[j]] 0 <= j < 7 ==> es[j].0 != es[7].0);
    lemma_obj_get_at(es, 7);
    assert(spec_obj_get(es, "url"@) == Some(enc_opt_str(x.url)));
    assert(forall|j: int| #![trigger es[j]] 0 <= j < 8 ==> es[j].0 != es[8].0);
    lemma_obj_get_at(es, 8);
    assert(spec_obj_get(es, "courses"@) == Some(JsonV::Arr(x.courses.map_values(enc_textbooks_course()))));
    assert(forall|j: int| #![trigger es[j]] 0 <= j < 9 ==> es[j].0 != es[9].0);
    lemma_obj_get_at(es, 9);
    assert(spec_obj_get(es, "last_updated"@) == Some(enc_opt_str(x.last_updated)));
    assert(field_str(es, "id"@) == Some(x.id));
    assert(field_str(es, "isbn"@) == Some(x.isbn));
    assert(field_str(es, "title"@) == Some(x.title));
    if x.edition is Some {
        lemma_parse_i64_print(x.edition.unwrap());
    }
    assert(field_int(es, "edition"@) == Some(x.edition));
    assert(field_str(es, "author"@) == Some(x.author));
    assert(field_str(es, "image"@) == Some(x.image));
    assert(field_num(es, "price"@) == Some(x.price));
    assert(field_str(es, "url"@) == Some(x.url));
    assert forall|i: int| 0 <= i < x.courses.len() implies dec_textbooks_course()(
        enc_textbooks_course()(#[trigger] x.courses[i]),
    ) == Some(x.courses[i]) by {
        lemma_textbooks_course_round_trip(x.courses[i]);
    }
    lemma_decode_encoded_list(x.courses, enc_textbooks_course(), dec_textbooks_course());
    assert(field_list(es, "courses"@, dec_textbooks_course()) == Some(x.courses));
    assert(field_str(es, "last_updated"@) == Some(x.last_updated));
    assert(spec_textbook_from_obj(es) == Some(x));
}

/// Law: decoding an encoded exam section returns the same value.
#[verifier::rlimit(100)]
pub proof fn lemma_exam_section_round_trip(x: ExamSectionView)
    ensures
        spec_exam_section_from_json(spec_exam_section_to_json(x)) == Some(x),
{
    reveal_strlit("lecture_code");
    reveal_strlit("split");
    reveal_strlit("location");
    assert("lecture_code"@ =~= seq!['l', 'e', 'c', 't', 'u', 'r', 'e', '_', 'c', 'o', 'd', 'e']);
    assert("split"@ =~= seq!['s', 'p', 'l', 'i', 't']);
    assert("location"@ =~= seq!['l', 'o', 'c', 'a', 't', 'i', 'o', 'n']);
    let es = spec_exam_section_to_json(x)->Obj_0;
    lemma_obj_get_at(es, 0);
    assert(spec_obj_get(es, "lecture_code"@) == Some(enc_opt_str(x.lecture_code)));
    assert(forall|j: int| #![trigger es[j]] 0 <= j < 1 ==> es[j].0 != es[1].0);
    lemma_obj_get_at(es, 1);
    assert(spec_obj_get(es, "split"@) == Some(enc_opt_str(x.split)));
    assert(forall|j: int| #![trigger es[j]] 0 <= j < 2 ==> es[j].0 != es[2].0);
    lemma_obj_get_at(es, 2);
    assert(spec_obj_get(es, "location"@) == Some(enc_opt_str(x.location)));
    assert(field_str(es, "lecture_code"@) == Some(x.lecture_code));
    assert(field_str(es, "split"@) == Some(x.split));
    assert(field_str(es, "location"@) == Some(x.location));
    assert(spec_exam_section_from_obj(es) == Some(x));
}

/// Law: decoding an encoded exam record returns the same value.
#[verifier::rlimit(100)]
pub proof fn lemma_exam_round_trip(x: ExamView)
    ensures
        spec_exam_from_json(spec_exam_to_json(x)) == Some(x),
{
    reveal_strlit("id");
    reveal_strlit("course_id");
    reveal_strlit("course_code");
    reveal_strlit("campus");
    reveal_strlit("date");
    reveal_strlit("start");
    reveal_strlit("end");
    reveal_strlit("duration");
    reveal_strlit("sections");
    reveal_strlit("last_updated");
    assert("id"@ =~= seq!['i', 'd']);
    assert("course_id"@ =~= seq!['c', 'o', 'u', 'r', 's', 'e', '_', 'i', 'd']);
    assert("course_code"@ =~= seq!['c', 'o', 'u', 'r', 's', 'e', '_', 'c', 'o', 'd', 'e']);
    assert("campus"@ =~= seq!['c', 'a', 'm', 'p', 'u', 's']);
    assert("date"@ =~= seq!['d', 'a', 't', 'e']);
    assert("start"@ =~= seq!['s', 't', 'a', 'r', 't']);
    assert("end"@ =~= seq!['e', 'n', 'd']);
    assert("duration"@ =~= seq!['d', 'u', 'r', 'a', 't', 'i', 'o', 'n']);
    assert("sections"@ =~= seq!['s', 'e', 'c', 't', 'i', 'o', 'n', 's']);
    assert("last_updated"@ =~= seq!['l', 'a', 's', 't', '_', 'u', 'p', 'd', 'a', 't', 'e', 'd']);
    let es = spec_exam_to_json(x)->Obj_0;
    lemma_obj_get_at(es, 0);
    assert(spec_obj_get(es, "id"@) == Some(enc_opt_str(x.id)));
    assert(forall|j: int| #![trigger es[j]] 0 <= j < 1 ==> es[j].0 != es[1].0);
    lemma_obj_get_at(es, 1);
    assert(spec_obj_get(es, "course_id"@) == Some(enc_opt_str(x.course_id)));
    assert(forall|j: int| #![trigger es[j]] 0 <= j < 2 ==> es[j].0 != es[2].0);
    lemma_obj_get_at(es, 2);
    assert(spec_obj_get(es, "course_code"@) == Some(enc_opt_str(x.course_code)));
    assert(forall|j: int| #![trigger es[j]] 0 <= j < 3 ==> es[j].0 != es[3].0);
    lemma_obj_get_at(es, 3);
    assert(spec_obj_get(es, "campus"@) == Some(enc_opt_str(x.campus)));
    assert(forall|j: int| #![trigger es[j]] 0 <= j < 4 ==> es[j].0 != es[4].0);
    lemma_obj_get_at(es, 4);
    assert(spec_obj_get(es, "date"@) == Some(enc_opt_str(x.date)));
    assert(forall|j: int| #![trigger es[j]] 0 <= j < 5 ==> es[j].0 != es[5].0);
    lemma_obj_get_at(es, 5);
    assert(spec_obj_get(es, "start"@) == Some(enc_opt_int(x.start)));
    assert(forall|j: int| #![trigger es[j]] 0 <= j < 6 ==> es[j].0 != es[6].0);
    lemma_obj_get_at(es, 6);
    assert(spec_obj_get(es, "end"@) == Some(enc_opt_int(x.end)));
    assert(forall|j: int| #![trigger es[j]] 0 <= j < 7 ==> es[j].0 != es[7].0);
    lemma_obj_get_at(es, 7);
    assert(spec_obj_get(es, "duration"@) == Some(enc_opt_int(x.duration)));
    assert(forall|j: int| #![trigger es[j]] 0 <= j < 8 ==> es[j].0 != es[8].0);
    lemma_obj_get_at(es, 8);
    assert(spec_obj_get(es, "sections"@) == Some(JsonV::Arr(x.sections.map_values(enc_exam_section()))));
    assert(forall|j: int| #![trigger es[j]] 0 <= j < 9 ==> es[j].0 != es[9].0);
    lemma_obj_get_at(es, 9);
    assert(spec_obj_get(es, "last_updated"@) == Some(enc_opt_str(x.last_updated)));
    assert(field_str(es, "id"@) == Some(x.id));
    assert(field_str(es, "course_id"@) == Some(x.course_id));
    assert(field_str(es, "course_code"@) == Some(x.course_code));
    assert(field_str(es, "campus"@) == Some(x.campus));
    assert(field_str(es, "date"@) == Some(x.date));
    if x.start is Some {
        lemma_parse_i64_print(x.start.unwrap());
    }
    assert(field_int(es, "start"@) == Some(x.start));
    if x.end is Some {
        lemma_parse_i64_print(x.end.unwrap());
    }
    assert(field_int(es, "end"@) == Some(x.end));
    if x.duration is Some {
        lemma_parse_i64_print(x.duration.unwrap());
    }
    assert(field_int(es, "duration"@) == Some(x.duration));
    assert forall|i: int| 0 <= i < x.sections.len() implies dec_exam_section()(
        enc_exam_section()(#[trigger] x.sections[i]),
    ) == Some(x.sections[i]) by {
        lemma_exam_section_round_trip(x.sections[i]);
    }
    lemma_decode_encoded_list(x.sections, enc_exam_section(), dec_exam_section());
    assert(field_list(es, "sections"@, dec_exam_section()) == Some(x.sections));
    assert(field_str(es, "last_updated"@) == Some(x.last_updated));
    assert(spec_exam_from_obj(es) == Some(x));
}

/// Law: decoding an encoded evaluated lecture returns the same value.
#[verifier::rlimit(100)]
pub proof fn lemma_eval_lecture_round_trip(x: EvalLectureView)
    ensures
        spec_eval_lecture_from_json(spec_eval_lecture_to_json(x)) == Some(x),
{
    reveal_strlit("lecture_code");
    reveal_strlit("firstname");
    reveal_strlit("lastname");
    reveal_strlit("s1");
    reveal_strlit("s2");
    reveal_strlit("s3");
    reveal_strlit("s4");
    reveal_strlit("s5");
    reveal_strlit("s6");
    reveal_strlit("invited");
    reveal_strlit("responses");
    assert("lecture_code"@ =~= seq!['l', 'e', 'c', 't', 'u', 'r', 'e', '_', 'c', 'o', 'd', 'e']);
    assert("firstname"@ =~= seq!['f', 'i', 'r', 's', 't', 'n', 'a', 'm', 'e']);
    assert("lastname"@ =~= seq!['l', 'a', 's', 't', 'n', 'a', 'm', 'e']);
    assert("s1"@ =~= seq!['s', '1']);
    assert("s2"@ =~= seq!['s', '2']);
    assert("s3"@ =~= seq!['s', '3']);
    assert("s4"@ =~= seq!['s', '4']);
    assert("s5"@ =~= seq!['s', '5']);
    assert("s6"@ =~= seq!['s', '6']);
    assert("invited"@ =~= seq!['i', 'n', 'v', 'i', 't', 'e', 'd']);
    assert("responses"@ =~= seq!['r', 'e', 's', 'p', 'o', 'n', 's', 'e', 's']);
    let es = spec_eval_lecture_to_json(x)->Obj_0;
    lemma_obj_get_at(es, 0);
    assert(spec_obj_get(es, "lecture_code"@) == Some(enc_opt_str(x.lecture_code)));
    assert(forall|j: int| #![trigger es[j]] 0 <= j < 1 ==> es[j].0 != es[1].0);
    lemma_obj_get_at(es, 1);
    assert(spec_obj_get(es, "firstname"@) == Some(enc_opt_str(x.firstname)));
    assert(forall|j: int| #![trigger es[j]] 0 <= j < 2 ==> es[j].0 != es[2].0);
    lemma_obj_get_at(es, 2);
    assert(spec_obj_get(es, "lastname"@) == Some(enc_opt_str(x.lastname)));
    assert(forall|j: int| #![trigger es[j]] 0 <= j < 3 ==> es[j].0 != es[3].0);
    lemma_obj_get_at(es, 3);
    assert(spec_obj_get(es, "s1"@) == Some(enc_opt_num(x.s1)));
    assert(forall|j: int| #![trigger es[j]] 0 <= j < 4 ==> es[j].0 != es[4].0);
    lemma_obj_get_at(es, 4);
    assert(spec_obj_get(es, "s2"@) == Some(enc_opt_num(x.s2)));
    assert(forall|j: int| #![trigger es[j]] 0 <= j < 5 ==> es[j].0 != es[5].0);
    lemma_obj_get_at(es, 5);
    assert(spec_obj_get(es, "s3"@) == Some(enc_opt_num(x.s3)));
    assert(forall|j: int| #![trigger es[j]] 0 <= j < 6 ==> es[j].0 != es[6].0);
    lemma_obj_get_at(es, 6);
    assert(spec_obj_get(es, "s4"@) == Some(enc_opt_num(x.s4)));
    assert(forall|j: int| #![trigger es[j]] 0 <= j < 7 ==> es[j].0 != es[7].0);
    lemma_obj_get_at(es, 7);
    assert(spec_obj_get(es, "s5"@) == Some(enc_opt_num(x.s5)));
    assert(forall|j: int| #![trigger es[j]] 0 <= j < 8 ==> es[j].0 != es[8].0);
    lemma_obj_get_at(es, 8);
    assert(spec_obj_get(es, "s6"@) == Some(enc_opt_num(x.s6)));
    assert(forall|j: int| #![trigger es[j]] 0 <= j < 9 ==> es[j].0 != es[9].0);
    lemma_obj_get_at(es, 9);
    assert(spec_obj_get(es, "invited"@) == Some(enc_opt_int(x.invited)));
    assert(forall|j: int| #![trigger es[j]] 0 <= j < 10 ==> es[j].0 != es[10].0);
    lemma_obj_get_at(es, 10);
    assert(spec_obj_get(es, "responses"@) == Some(enc_opt_int(x.responses)));
    assert(field_str(es, "lecture_code"@) == Some(x.lecture_code));
    assert(field_str(es, "firstname"@) == Some(x.firstname));
    assert(field_str(es, "lastname"@) == Some(x.lastname));
    assert(field_num(es, "s1"@) == Some(x.s1));
    assert(field_num(es, "s2"@) == Some(x.s2));
    assert(field_num(es, "s3"@) == Some(x.s3));
    assert(field_num(es, "s4"@) == Some(x.s4));
    assert(field_num(es, "s5"@) == Some(x.s5));
    assert(field_num(es, "s6"@) == Some(x.s6));
    if x.invited is Some {
        lemma_parse_i64_print(x.invited.unwrap());
    }
    assert(field_int(es, "invited"@) == Some(x.invited));
    if x.responses is Some {
        lemma_parse_i64_print(x.responses.unwrap());
    }
    assert(field_int(es, "responses"@) == Some(x.responses));
    assert(spec_eval_lecture_from_obj(es) == Some(x));
}

/// Law: decoding an encoded evaluation term returns the same value.
#[verifier::rlimit(100)]
pub proof fn lemma_eval_term_round_trip(x: EvalTermView)
    ensures
        spec_eval_term_from_json(spec_eval_term_to_json(x)) == Some(x),
{
    reveal_strlit("term");
    reveal_strlit("lectures");
    assert("term"@ =~= seq!['t', 'e', 'r', 'm']);
    assert("lectures"@ =~= seq!['l', 'e', 'c', 't', 'u', 'r', 'e', 's']);
    let es = spec_eval_term_to_json(x)->Obj_0;
    lemma_obj_get_at(es, 0);
    assert(spec_obj_get(es, "term"@) == Some(enc_opt_str(x.term)));
    assert(forall|j: int| #![trigger es[j]] 0 <= j < 1 ==> es[j].0 != es[1].0);
    lemma_obj_get_at(es, 1);
    assert(spec_obj_get(es, "lectures"@) == Some(JsonV::Arr(x.lectures.map_values(enc_eval_lecture()))));
    assert(field_str(es, "term"@) == Some(x.term));
    assert forall|i: int| 0 <= i < x.lectures.len() implies dec_eval_lecture()(
        enc_eval_lecture()(#[trigger] x.lectures[i]),
    ) == Some(x.lectures[i]) by {
        lemma_eval_lecture_round_trip(x.lectures[i]);
    }
    lemma_decode_encoded_list(x.lectures, enc_eval_lecture(), dec_eval_lecture());
    assert(field_list(es, "lectures"@, dec_eval_lecture()) == Some(x.lectures));
    assert(spec_eval_term_from_obj(es) == Some(x));
}

/// Law: decoding an encoded course evaluation record returns the same value.
#[verifier::rlimit(100)]
pub proof fn lemma_eval_round_trip(x: EvalView)
    ensures
        spec_eval_from_json(spec_eval_to_json(x)) == Some(x),
{
    reveal_strlit("id");
    reveal_strlit("name");
    reveal_strlit("campus");
    reveal_strlit("terms");
    reveal_strlit("last_updated");
    assert("id"@ =~= seq!['i', 'd']);
    assert("name"@ =~= seq!['n', 'a', 'm', 'e']);
    assert("campus"@ =~= seq!['c', 'a', 'm', 'p', 'u', 's']);
    assert("terms"@ =~= seq!['t', 'e', 'r', 'm', 's']);
    assert("last_updated"@ =~= seq!['l', 'a', 's', 't', '_', 'u', 'p', 'd', 'a', 't', 'e', 'd']);
    let es = spec_eval_to_json(x)->Obj_0;
    lemma_obj_get_at(es, 0);
    assert(spec_obj_get(es, "id"@) == Some(enc_opt_str(x.id)));
    assert(forall|j: int| #![trigger es[j]] 0 <= j < 1 ==> es[j].0 != es[1].0);
    lemma_obj_get_at(es, 1);
    assert(spec_obj_get(es, "name"@) == Some(enc_opt_str(x.name)));
    assert(forall|j: int| #![trigger es[j]] 0 <= j < 2 ==> es[j].0 != es[2].0);
    lemma_obj_get_at(es, 2);
    assert(spec_obj_get(es, "campus"@) == Some(enc_opt_str(x.campus)));
    assert(forall|j: int| #![trigger es[j]] 0 <= j < 3 ==> es[j].0 != es[3].0);
    lemma_obj_get_at(es, 3);
    assert(spec_obj_get(es, "terms"@) == Some(JsonV::Arr(x.terms.map_values(enc_eval_term()))));
    assert(forall|j: int| #![trigger es[j]] 0 <= j < 4 ==> es[j].0 != es[4].0);
    lemma_obj_get_at(es, 4);
    assert(spec_obj_get(es, "last_updated"@) == Some(enc_opt_str(x.last_updated)));
    assert(field_str(es, "id"@) == Some(x.id));
    assert(field_str(es, "name"@) == Some(x.name));
    assert(field_str(es, "campus"@) == Some(x.campus));
    assert forall|i: int| 0 <= i < x.terms.len() implies dec_eval_term()(
        enc_eval_term()(#[trigger] x.terms[i]),
    ) == Some(x.terms[i]) by {
        lemma_eval_term_round_trip(x.terms[i]);
    }
    lemma_decode_encoded_list(x.terms, enc_eval_term(), dec_eval_term());
    assert(field_list(es, "terms"@, dec_eval_term()) == Some(x.terms));
    assert(field_str(es, "last_updated"@) == Some(x.last_updated));
    assert(spec_eval_from_obj(es) == Some(x));
}

/// Law: decoding an encoded day schedule returns the same value.
#[verifier::rlimit(100)]
pub proof fn lemma_day_hours_round_trip(x: DayHoursView)
    ensures
        spec_day_hours_from_json(spec_day_hours_to_json(x)) == Some(x),
{
    reveal_strlit("closed");
    reveal_strlit("open");
    reveal_strlit("close");
    assert("closed"@ =~= seq!['c', 'l', 'o', 's', 'e', 'd']);
    assert("open"@ =~= seq!['o', 'p', 'e', 'n']);
    assert("close"@ =~= seq!['c', 'l', 'o', 's', 'e']);
    let es = spec_day_hours_to_json(x)->Obj_0;
    lemma_obj_get_at(es, 0);
    assert(spec_obj_get(es, "closed"@) == Some(enc_opt_bool(x.closed)));
    assert(forall|j: int| #![trigger es[j]] 0 <= j < 1 ==> es[j].0 != es[1].0);
    lemma_obj_get_at(es, 1);
    assert(spec_obj_get(es, "open"@) == Some(enc_opt_int(x.open)));
    assert(forall|j: int| #![trigger es[j]] 0 <= j < 2 ==> es[j].0 != es[2].0);
    lemma_obj_get_at(es, 2);
    assert(spec_obj_get(es, "close"@) == Some(enc_opt_int(x.close)));
    assert(field_bool(es, "closed"@) == Some(x.closed));
    if x.open is Some {
        lemma_parse_i64_print(x.open.unwrap());
    }
    assert(field_int(es, "open"@) == Some(x.open));
    if x.close is Some {
        lemma_parse_i64_print(x.close.unwrap());
    }
    assert(field_int(es, "close"@) == Some(x.close));
    assert(spec_day_hours_from_obj(es) == Some(x));
}

/// Law: decoding an encoded weekly opening hours record returns the same value.
#[verifier::rlimit(100)]
pub proof fn lemma_hours_round_trip(x: HoursView)
    ensures
        spec_hours_from_json(spec_hours_to_json(x)) == Some(x),
{
    reveal_strlit("sunday");
    reveal_strlit("monday");
    reveal_strlit("tuesday");
    reveal_strlit("wednesday");
    reveal_strlit("thursday");
    reveal_strlit("friday");
    reveal_strlit("saturday");
    assert("sunday"@ =~= seq!['s', 'u', 'n', 'd', 'a', 'y']);
    assert("monday"@ =~= seq!['m', 'o', 'n', 'd', 'a', 'y']);
    assert("tuesday"@ =~= seq!['t', 'u', 'e', 's', 'd', 'a', 'y']);
    assert("wednesday"@ =~= seq!['w', 'e', 'd', 'n', 'e', 's', 'd', 'a', 'y']);
    assert("thursday"@ =~= seq!['t', 'h', 'u', 'r', 's', 'd', 'a', 'y']);
    assert("friday"@ =~= seq!['f', 'r', 'i', 'd', 'a', 'y']);
    assert("saturday"@ =~= seq!['s', 'a', 't', 'u', 'r', 'd', 'a', 'y']);
    let es = spec_hours_to_json(x)->Obj_0;
    lemma_obj_get_at(es, 0);
    assert(spec_obj_get(es, "sunday"@) == Some(enc_opt_rec(x.sunday, enc_day_hours())));
    assert(forall|j: int| #![trigger es[j]] 0 <= j < 1 ==> es[j].0 != es[1].0);
    lemma_obj_get_at(es, 1);
    assert(spec_obj_get(es, "monday"@) == Some(enc_opt_rec(x.monday, enc_day_hours())));
    assert(forall|j: int| #![trigger es[j]] 0 <= j < 2 ==> es[j].0 != es[2].0);
    lemma_obj_get_at(es, 2);
    assert(spec_obj_get(es, "tuesday"@) == Some(enc_opt_rec(x.tuesday, enc_day_hours())));
    assert(forall|j: int| #![trigger es[j]] 0 <= j < 3 ==> es[j].0 != es[3].0);
    lemma_obj_get_at(es, 3);
    assert(spec_obj_get(es, "wednesday"@) == Some(enc_opt_rec(x.wednesday, enc_day_hours())));
    assert(forall|j: int| #![trigger es[j]] 0 <= j < 4 ==> es[j].0 != es[4].0);
    lemma_obj_get_at(es, 4);
    assert(spec_obj_get(es, "thursday"@) == Some(enc_opt_rec(x.thursday, enc_day_hours())));
    assert(forall|j: int| #![trigger es[j]] 0 <= j < 5 ==> es[j].0 != es[5].0);
    lemma_obj_get_at(es, 5);
    assert(spec_obj_get(es, "friday"@) == Some(enc_opt_rec(x.friday, enc_day_hours())));
    assert(forall|j: int| #![trigger es[j]] 0 <= j < 6 ==> es[j].0 != es[6].0);
    lemma_obj_get_at(es, 6);
    assert(spec_obj_get(es, "saturday"@) == Some(enc_opt_rec(x.saturday, enc_day_hours())));
    match x.sunday {
        Some(v) => lemma_day_hours_round_trip(v),
        None => (),
    }
    assert(field_rec(es, "sunday"@, dec_day_hours()) == Some(x.sunday));
    match x.monday {
        Some(v) => lemma_day_hours_round_trip(v),
        None => (),
    }
    assert(field_rec(es, "monday"@, dec_day_hours()) == Some(x.monday));
    match x.tuesday {
        Some(v) => lemma_day_hours_round_trip(v),
        None => (),
    }
    assert(field_rec(es, "tuesday"@, dec_day_hours()) == Some(x.tuesday));
    match x.wednesday {
        Some(v) => lemma_day_hours_round_trip(v),
        None => (),
    }
    assert(field_rec(es, "wednesday"@, dec_day_hours()) == Some(x.wednesday));
    match x.thursday {
        Some(v) => lemma_day_hours_round_trip(v),
        None => (),
    }
    assert(field_rec(es, "thursday"@, dec_day_hours()) == Some(x.thursday));
    match x.friday {
        Some(v) => lemma_day_hours_round_trip(v),
        None => (),
    }
    assert(field_rec(es, "friday"@, dec_day_hours()) == Some(x.friday));
    match x.saturday {
        Some(v) => lemma_day_hours_round_trip(v),
        None => (),
    }
    assert(field_rec(es, "saturday"@, dec_day_hours()) == Some(x.saturday));
    assert(spec_hours_from_obj(es) == Some(x));
}

/// Law: decoding an encoded coordinate pair returns the same value.
#[verifier::rlimit(100)]
pub proof fn lemma_coordinates_round_trip(x: CoordinatesView)
    ensures
        spec_coordinates_from_json(spec_coordinates_to_json(x)) == Some(x),
{
    reveal_strlit("latitude");
    reveal_strlit("longitude");
    assert("latitude"@ =~= seq!['l', 'a', 't', 'i', 't', 'u', 'd', 'e']);
    assert("longitude"@ =~= seq!['l', 'o', 'n', 'g', 'i', 't', 'u', 'd', 'e']);
    let es = spec_coordinates_to_json(x)->Obj_0;
    lemma_obj_get_at(es, 0);
    assert(spec_obj_get(es, "latitude"@) == Some(enc_opt_num(x.latitude)));
    assert(forall|j: int| #![trigger es[j]] 0 <= j < 1 ==> es[j].0 != es[1].0);
    lemma_obj_get_at(es, 1);
    assert(spec_obj_get(es, "longitude"@) == Some(enc_opt_num(x.longitude)));
    assert(field_num(es, "latitude"@) == Some(x.latitude));
    assert(field_num(es, "longitude"@) == Some(x.longitude));
    assert(spec_coordinates_from_obj(es) == Some(x));
}

/// Law: decoding an encoded food vendor record returns the same value.
#[verifier::rlimit(100)]
pub proof fn lemma_food_round_trip(x: FoodView)
    ensures
        spec_food_from_json(spec_food_to_json(x)) == Some(x),
{
    reveal_strlit("id");
    reveal_strlit("name");
    reveal_strlit("description");
    reveal_strlit("tags");
    reveal_strlit("campus");
    reveal_strlit("address");
    reveal_strlit("coordinates");
    reveal_strlit("hours");
    reveal_strlit("image");
    reveal_strlit("url");
    reveal_strlit("twitter");
    reveal_strlit("facebook");
    reveal_strlit("attributes");
    reveal_strlit("last_updated");
    assert("id"@ =~= seq!['i', 'd']);
    assert("name"@ =~= seq!['n', 'a', 'm', 'e']);
    assert("description"@ =~= seq!['d', 'e', 's', 'c', 'r', 'i', 'p', 't', 'i', 'o', 'n']);
    assert("tags"@ =~= seq!['t', 'a', 'g', 's']);
    assert("campus"@ =~= seq!['c', 'a', 'm', 'p', 'u', 's']);
    assert("address"@ =~= seq!['a', 'd', 'd', 'r', 'e', 's', 's']);
    assert("coordinates"@ =~= seq!['c', 'o', 'o', 'r', 'd', 'i', 'n', 'a', 't', 'e', 's']);
    assert("hours"@ =~= seq!['h', 'o', 'u', 'r', 's']);
    assert("image"@ =~= seq!['i', 'm', 'a', 'g', 'e']);
    assert("url"@ =~= seq!['u', 'r', 'l']);
    assert("twitter"@ =~= seq!['t', 'w', 'i', 't', 't', 'e', 'r']);
    assert("facebook"@ =~= seq!['f', 'a', 'c', 'e', 'b', 'o', 'o', 'k']);
    assert("attributes"@ =~= seq!['a', 't', 't', 'r', 'i', 'b', 'u', 't', 'e', 's']);
    assert("last_updated"@ =~= seq!['l', 'a', 's', 't', '_', 'u', 'p', 'd', 'a', 't', 'e', 'd']);
    let es = spec_food_to_json(x)->Obj_0;
    lemma_obj_get_at(es, 0);
    assert(spec_obj_get(es, "id"@) == Some(enc_opt_str(x.id)));
    assert(forall|j: int| #![trigger es[j]] 0 <= j < 1 ==> es[j].0 != es[1].0);
    lemma_obj_get_at(es, 1);
    assert(spec_obj_get(es, "name"@) == Some(enc_opt_str(x.name)));
    assert(forall|j: int| #![trigger es[j]] 0 <= j < 2 ==> es[j].0 != es[2].0);
    lemma_obj_get_at(es, 2);
    assert(spec_obj_get(es, "description"@) == Some(enc_opt_str(x.description)));
    assert(forall|j: int| #![trigger es[j]] 0 <= j < 3 ==> es[j].0 != es[3].0);
    lemma_obj_get_at(es, 3);
    assert(spec_obj_get(es, "tags"@) == Some(enc_opt_str(x.tags)));
    assert(forall|j: int| #![trigger es[j]] 0 <= j < 4 ==> es[j].0 != es[4].0);
    lemma_obj_get_at(es, 4);
    assert(spec_obj_get(es, "campus"@) == Some(enc_opt_str(x.campus)));
    assert(forall|j: int| #![trigger es[j]] 0 <= j < 5 ==> es[j].0 != es[5].0);
    lemma_obj_get_at(es, 5);
    assert(spec_obj_get(es, "address"@) == Some(enc_opt_str(x.address)));
    assert(forall|j: int| #![trigger es[j]] 0 <= j < 6 ==> es[j].0 != es[6].0);
    lemma_obj_get_at(es, 6);
    assert(spec_obj_get(es, "coordinates"@) == Some(enc_opt_rec(x.coordinates, enc_coordinates())));
    assert(forall|j: int| #![trigger es[j]] 0 <= j < 7 ==> es[j].0 != es[7].0);
    lemma_obj_get_at(es, 7);
    assert(spec_obj_get(es, "hours"@) == Some(enc_opt_rec(x.hours, enc_hours())));
    assert(forall|j: int| #![trigger es[j]] 0 <= j < 8 ==> es[j].0 != es[8].0);
    lemma_obj_get_at(es, 8);
    assert(spec_obj_get(es, "image"@) == Some(enc_opt_str(x.image)));
    assert(forall|j: int| #![trigger es[j]] 0 <= j < 9 ==> es[j].0 != es[9].0);
    lemma_obj_get_at(es, 9);
    assert(spec_obj_get(es, "url"@) == Some(enc_opt_str(x.url)));
    assert(forall|j: int| #![trigger es[j]] 0 <= j < 10 ==> es[j].0 != es[10].0);
    lemma_obj_get_at(es, 10);
    assert(spec_obj_get(es, "twitter"@) == Some(enc_opt_str(x.twitter)));
    assert(forall|j: int| #![trigger es[j]] 0 <= j < 11 ==> es[j].0 != es[11].0);
    lemma_obj_get_at(es, 11);
    assert(spec_obj_get(es, "facebook"@) == Some(enc_opt_str(x.facebook)));
    assert(forall|j: int| #![trigger es[j]] 0 <= j < 12 ==> es[j].0 != es[12].0);
    lemma_obj_get_at(es, 12);
    assert(spec_obj_get(es, "attributes"@) == Some(JsonV::Arr(x.attributes.map_values(enc_string()))));
    assert(forall|j: int| #![trigger es[j]] 0 <= j < 13 ==> es[j].0 != es[13].0);
    lemma_obj_get_at(es, 13);
    assert(spec_obj_get(es, "last_updated"@) == Some(enc_opt_str(x.last_updated)));
    assert(field_str(es, "id"@) == Some(x.id));
    assert(field_str(es, "name"@) == Some(x.name));
    assert(field_str(es, "description"@) == Some(x.description));
    assert(field_str(es, "tags"@) == Some(x.tags));
    assert(field_str(es, "campus"@) == Some(x.campus));
    assert(field_str(es, "address"@) == Some(x.address));
    match x.coordinates {
        Some(v) => lemma_coordinates_round_trip(v),
        None => (),
    }
    assert(field_rec(es, "coordinates"@, dec_coordinates()) == Some(x.coordinates));
    match x.hours {
        Some(v) => lemma_hours_round_trip(v),
        None => (),
    }
    assert(field_rec(es, "hours"@, dec_hours()) == Some(x.hours));
    assert(field_str(es, "image"@) == Some(x.image));
    assert(field_str(es, "url"@) == Some(x.url));
    assert(field_str(es, "twitter"@) == Some(x.twitter));
    assert(field_str(es, "facebook"@) == Some(x.facebook));
    assert forall|i: int| 0 <= i < x.attributes.len() implies dec_string()(
        enc_string()(#[trigger] x.attributes[i]),
    ) == Some(x.attributes[i]) by {
    }
    lemma_decode_encoded_list(x.attributes, enc_string(), dec_string());
    assert(field_list(es, "attributes"@, dec_string()) == Some(x.attributes));
    assert(field_str(es, "last_updated"@) == Some(x.last_updated));
    assert(spec_food_from_obj(es) == Some(x));
}

/// Law: decoding an encoded service record returns the same value.
#[verifier::rlimit(100)]
pub proof fn lemma_service_round_trip(x: ServiceView)
    ensures
        spec_service_from_json(spec_service_to_json(x)) == Some(x),
{
    reveal_strlit("id");
    reveal_strlit("name");
    reveal_strlit("alias");
    reveal_strlit("building_id");
    reveal_strlit("description");
    reveal_strlit("campus");
    reveal_strlit("address");
    reveal_strlit("image");
    reveal_strlit("coordinates");
    reveal_strlit("tags");
    reveal_strlit("attributes");
    reveal_strlit("last_updated");
    assert("id"@ =~= seq!['i', 'd']);
    assert("name"@ =~= seq!['n', 'a', 'm', 'e']);
    assert("alias"@ =~= seq!['a', 'l', 'i', 'a', 's']);
    assert("building_id"@ =~= seq!['b', 'u', 'i', 'l', 'd', 'i', 'n', 'g', '_', 'i', 'd']);
    assert("description"@ =~= seq!['d', 'e', 's', 'c', 'r', 'i', 'p', 't', 'i', 'o', 'n']);
    assert("campus"@ =~= seq!['c', 'a', 'm', 'p', 'u', 's']);
    assert("address"@ =~= seq!['a', 'd', 'd', 'r', 'e', 's', 's']);
    assert("image"@ =~= seq!['i', 'm', 'a', 'g', 'e']);
    assert("coordinates"@ =~= seq!['c', 'o', 'o', 'r', 'd', 'i', 'n', 'a', 't', 'e', 's']);
    assert("tags"@ =~= seq!['t', 'a', 'g', 's']);
    assert("attributes"@ =~= seq!['a', 't', 't', 'r', 'i', 'b', 'u', 't', 'e', 's']);
    assert("last_updated"@ =~= seq!['l', 'a', 's', 't', '_', 'u', 'p', 'd', 'a', 't', 'e', 'd']);
    let es = spec_service_to_json(x)->Obj_0;
    lemma_obj_get_at(es, 0);
    assert(spec_obj_get(es, "id"@) == Some(enc_opt_str(x.id)));
    assert(forall|j: int| #![trigger es[j]] 0 <= j < 1 ==> es[j].0 != es[1].0);
    lemma_obj_get_at(es, 1);
    assert(spec_obj_get(es, "name"@) == Some(enc_opt_str(x.name)));
    assert(forall|j: int| #![trigger es[j]] 0 <= j < 2 ==> es[j].0 != es[2].0);
    lemma_obj_get_at(es, 2);
    assert(spec_obj_get(es, "alias"@) == Some(enc_opt_str(x.alias)));
    assert(forall|j: int| #![trigger es[j]] 0 <= j < 3 ==> es[j].0 != es[3].0);
    lemma_obj_get_at(es, 3);
    assert(spec_obj_get(es, "building_id"@) == Some(enc_opt_str(x.building_id)));
    assert(forall|j: int| #![trigger es[j]] 0 <= j < 4 ==> es[j].0 != es[4].0);
    lemma_obj_get_at(es, 4);
    assert(spec_obj_get(es, "description"@) == Some(enc_opt_str(x.description)));
    assert(forall|j: int| #![trigger es[j]] 0 <= j < 5 ==> es[j].0 != es[5].0);
    lemma_obj_get_at(es, 5);
    assert(spec_obj_get(es, "campus"@) == Some(enc_opt_str(x.campus)));
    assert(forall|j: int| #![trigger es[j]] 0 <= j < 6 ==> es[j].0 != es[6].0);
    lemma_obj_get_at(es, 6);
    assert(spec_obj_get(es, "address"@) == Some(enc_opt_str(x.address)));
    assert(forall|j: int| #![trigger es[j]] 0 <= j < 7 ==> es[j].0 != es[7].0);
    lemma_obj_get_at(es, 7);
    assert(spec_obj_get(es, "image"@) == Some(enc_opt_str(x.image)));
    assert(forall|j: int| #![trigger es[j]] 0 <= j < 8 ==> es[j].0 != es[8].0);
    lemma_obj_get_at(es, 8);
    assert(spec_obj_get(es, "coordinates"@) == Some(enc_opt_rec(x.coordinates, enc_coordinates())));
    assert(forall|j: int| #![trigger es[j]] 0 <= j < 9 ==> es[j].0 != es[9].0);
    lemma_obj_get_at(es, 9);
    assert(spec_obj_get(es, "tags"@) == Some(enc_opt_str(x.tags)));
    assert(forall|j: int| #![trigger es[j]] 0 <= j < 10 ==> es[j].0 != es[10].0);
    lemma_obj_get_at(es, 10);
    assert(spec_obj_get(es, "attributes"@) == Some(JsonV::Arr(x.attributes.map_values(enc_string()))));
    assert(forall|j: int| #![trigger es[j]] 0 <= j < 11 ==> es[j].0 != es[11].0);
    lemma_obj_get_at(es, 11);
    assert(spec_obj_get(es, "last_updated"@) == Some(enc_opt_str(x.last_updated)));
    assert(field_str(es, "id"@) == Some(x.id));
    assert(field_str(es, "name"@) == Some(x.name));
    assert(field_str(es, "alias"@) == Some(x.alias));
    assert(field_str(es, "building_id"@) == Some(x.building_id));
    assert(field_str(es, "description"@) == Some(x.description));
    assert(field_str(es, "campus"@) == Some(x.campus));
    assert(field_str(es, "address"@) == Some(x.address));
    assert(field_str(es, "image"@) == Some(x.image));
    match x.coordinates {
        Some(v) => lemma_coordinates_round_trip(v),
        None => (),
    }
    assert(field_rec(es, "coordinates"@, dec_coordinates()) == Some(x.coordinates));
    assert(field_str(es, "tags"@) == Some(x.tags));
    assert forall|i: int| 0 <= i < x.attributes.len() implies dec_string()(
        enc_string()(#[trigger] x.attributes[i]),
    ) == Some(x.attributes[i]) by {
    }
    lemma_decode_encoded_list(x.attributes, enc_string(), dec_string());
    assert(field_list(es, "attributes"@, dec_string()) == Some(x.attributes));
    assert(field_str(es, "last_updated"@) == Some(x.last_updated));
    assert(spec_service_from_obj(es) == Some(x));
}

/// Law: decoding an encoded street address returns the same value.
#[verifier::rlimit(100)]
pub proof fn lemma_building_address_round_trip(x: BuildingAddressView)
    ensures
        spec_building_address_from_json(spec_building_address_to_json(x)) == Some(x),
{
    reveal_strlit("street");
    reveal_strlit("city");
    reveal_strlit("province");
    reveal_strlit("country");
    reveal_strlit("postal");
    assert("street"@ =~= seq!['s', 't', 'r', 'e', 'e', 't']);
    assert("city"@ =~= seq!['c', 'i', 't', 'y']);
    assert("province"@ =~= seq!['p', 'r', 'o', 'v', 'i', 'n', 'c', 'e']);
    assert("country"@ =~= seq!['c', 'o', 'u', 'n', 't', 'r', 'y']);
    assert("postal"@ =~= seq!['p', 'o', 's', 't', 'a', 'l']);
    let es = spec_building_address_to_json(x)->Obj_0;
    lemma_obj_get_at(es, 0);
    assert(spec_obj_get(es, "street"@) == Some(enc_opt_str(x.street)));
    assert(forall|j: int| #![trigger es[j]] 0 <= j < 1 ==> es[j].0 != es[1].0);
    lemma_obj_get_at(es, 1);
    assert(spec_obj_get(es, "city"@) == Some(enc_opt_str(x.city)));
    assert(forall|j: int| #![trigger es[j]] 0 <= j < 2 ==> es[j].0 != es[2].0);
    lemma_obj_get_at(es, 2);
    assert(spec_obj_get(es, "province"@) == Some(enc_opt_str(x.province)));
    assert(forall|j: int| #![trigger es[j]] 0 <= j < 3 ==> es[j].0 != es[3].0);
    lemma_obj_get_at(es, 3);
    assert(spec_obj_get(es, "country"@) == Some(enc_opt_str(x.country)));
    assert(forall|j: int| #![trigger es[j]] 0 <= j < 4 ==> es[j].0 != es[4].0);
    lemma_obj_get_at(es, 4);
    assert(spec_obj_get(es, "postal"@) == Some(enc_opt_str(x.postal)));
    assert(field_str(es, "street"@) == Some(x.street));
    assert(field_str(es, "city"@) == Some(x.city));
    assert(field_str(es, "province"@) == Some(x.province));
    assert(field_str(es, "country"@) == Some(x.country));
    assert(field_str(es, "postal"@) == Some(x.postal));
    assert(spec_building_address_from_obj(es) == Some(x));
}

/// Law: decoding an encoded building record returns the same value.
#[verifier::rlimit(100)]
pub proof fn lemma_building_round_trip(x: BuildingView)
    ensures
        spec_building_from_json(spec_building_to_json(x)) == Some(x),
{
    reveal_strlit("id");
    reveal_strlit("code");
    reveal_strlit("tags");
    reveal_strlit("name");
    reveal_strlit("short_name");
    reveal_strlit("address");
    reveal_strlit("coordinates");
    reveal_strlit("last_updated");
    assert("id"@ =~= seq!['i', 'd']);
    assert("code"@ =~= seq!['c', 'o', 'd', 'e']);
    assert("tags"@ =~= seq!['t', 'a', 'g', 's']);
    assert("name"@ =~= seq!['n', 'a', 'm', 'e']);
    assert("short_name"@ =~= seq!['s', 'h', 'o', 'r', 't', '_', 'n', 'a', 'm', 'e']);
    assert("address"@ =~= seq!['a', 'd', 'd', 'r', 'e', 's', 's']);
    assert("coordinates"@ =~= seq!['c', 'o', 'o', 'r', 'd', 'i', 'n', 'a', 't', 'e', 's']);
    assert("last_updated"@ =~= seq!['l', 'a', 's', 't', '_', 'u', 'p', 'd', 'a', 't', 'e', 'd']);
    let es = spec_building_to_json(x)->Obj_0;
    lemma_obj_get_at(es, 0);
    assert(spec_obj_get(es, "id"@) == Some(enc_opt_str(x.id)));
    assert(forall|j: int| #![trigger es[j]] 0 <= j < 1 ==> es[j].0 != es[1].0);
    lemma_obj_get_at(es, 1);
    assert(spec_obj_get(es, "code"@) == Some(enc_opt_str(x.code)));
    assert(forall|j: int| #![trigger es[j]] 0 <= j < 2 ==> es[j].0 != es[2].0);
    lemma_obj_get_at(es, 2);
    assert(spec_obj_get(es, "tags"@) == Some(enc_opt_str(x.tags)));
    assert(forall|j: int| #![trigger es[j]] 0 <= j < 3 ==> es[j].0 != es[3].0);
    lemma_obj_get_at(es, 3);
    assert(spec_obj_get(es, "name"@) == Some(enc_opt_str(x.name)));
    assert(forall|j: int| #![trigger es[j]] 0 <= j < 4 ==> es[j].0 != es[4].0);
    lemma_obj_get_at(es, 4);
    assert(spec_obj_get(es, "short_name"@) == Some(enc_opt_str(x.short_name)));
    assert(forall|j: int| #![trigger es[j]] 0 <= j < 5 ==> es[j].0 != es[5].0);
    lemma_obj_get_at(es, 5);
    assert(spec_obj_get(es, "address"@) == Some(enc_opt_rec(x.address, enc_building_address())));
    assert(forall|j: int| #![trigger es[j]] 0 <= j < 6 ==> es[j].0 != es[6].0);
    lemma_obj_get_at(es, 6);
    assert(spec_obj_get(es, "coordinates"@) == Some(enc_opt_rec(x.coordinates, enc_coordinates())));
    assert(forall|j: int| #![trigger es[j]] 0 <= j < 7 ==> es[j].0 != es[7].0);
    lemma_obj_get_at(es, 7);
    assert(spec_obj_get(es, "last_updated"@) == Some(enc_opt_str(x.last_updated)));
    assert(field_str(es, "id"@) == Some(x.id));
    assert(field_str(es, "code"@) == Some(x.code));
    assert(field_str(es, "tags"@) == Some(x.tags));
    assert(field_str(es, "name"@) == Some(x.name));
    assert(field_str(es, "short_name"@) == Some(x.short_name));
    match x.address {
        Some(v) => lemma_building_address_round_trip(v),
        None => (),
    }
    assert(field_rec(es, "address"@, dec_building_address()) == Some(x.address));
    match x.coordinates {
        Some(v) => lemma_coordinates_round_trip(v),
        None => (),
    }
    assert(field_rec(es, "coordinates"@, dec_coordinates()) == Some(x.coordinates));
    assert(field_str(es, "last_updated"@) == Some(x.last_updated));
    assert(spec_building_from_obj(es) == Some(x));
}

/// Law: decoding an encoded parking record returns the same value.
#[verifier::rlimit(100)]
pub proof fn lemma_parking_round_trip(x: ParkingView)
    ensures
        spec_parking_from_json(spec_parking_to_json(x)) == Some(x),
{
    reveal_strlit("id");
    reveal_strlit("name");
    reveal_strlit("alias");
    reveal_strlit("building_id");
    reveal_strlit("description");
    reveal_strlit("campus");
    reveal_strlit("address");
    reveal_strlit("coordinates");
    reveal_strlit("last_updated");
    assert("id"@ =~= seq!['i', 'd']);
    assert("name"@ =~= seq!['n', 'a', 'm', 'e']);
    assert("alias"@ =~= seq!['a', 'l', 'i', 'a', 's']);
    assert("building_id"@ =~= seq!['b', 'u', 'i', 'l', 'd', 'i', 'n', 'g', '_', 'i', 'd']);
    assert("description"@ =~= seq!['d', 'e', 's', 'c', 'r', 'i', 'p', 't', 'i', 'o', 'n']);
    assert("campus"@ =~= seq!['c', 'a', 'm', 'p', 'u', 's']);
    assert("address"@ =~= seq!['a', 'd', 'd', 'r', 'e', 's', 's']);
    assert("coordinates"@ =~= seq!['c', 'o', 'o', 'r', 'd', 'i', 'n', 'a', 't', 'e', 's']);
    assert("last_updated"@ =~= seq!['l', 'a', 's', 't', '_', 'u', 'p', 'd', 'a', 't', 'e', 'd']);
    let es = spec_parking_to_json(x)->Obj_0;
    lemma_obj_get_at(es, 0);
    assert(spec_obj_get(es, "id"@) == Some(enc_opt_str(x.id)));
    assert(forall|j: int| #![trigger es[j]] 0 <= j < 1 ==> es[j].0 != es[1].0);
    lemma_obj_get_at(es, 1);
    assert(spec_obj_get(es, "name"@) == Some(enc_opt_str(x.name)));
    assert(forall|j: int| #![trigger es[j]] 0 <= j < 2 ==> es[j].0 != es[2].0);
    lemma_obj_get_at(es, 2);
    assert(spec_obj_get(es, "alias"@) == Some(enc_opt_str(x.alias)));
    assert(forall|j: int| #![trigger es[j]] 0 <= j < 3 ==> es[j].0 != es[3].0);
    lemma_obj_get_at(es, 3);
    assert(spec_obj_get(es, "building_id"@) == Some(enc_opt_str(x.building_id)));
    assert(forall|j: int| #![trigger es[j]] 0 <= j < 4 ==> es[j].0 != es[4].0);
    lemma_obj_get_at(es, 4);
    assert(spec_obj_get(es, "description"@) == Some(enc_opt_str(x.description)));
    assert(forall|j: int| #![trigger es[j]] 0 <= j < 5 ==> es[j].0 != es[5].0);
    lemma_obj_get_at(es, 5);
    assert(spec_obj_get(es, "campus"@) == Some(enc_opt_str(x.campus)));
    assert(forall|j: int| #![trigger es[j]] 0 <= j < 6 ==> es[j].0 != es[6].0);
    lemma_obj_get_at(es, 6);
    assert(spec_obj_get(es, "address"@) == Some(enc_opt_str(x.address)));
    assert(forall|j: int| #![trigger es[j]] 0 <= j < 7 ==> es[j].0 != es[7].0);
    lemma_obj_get_at(es, 7);
    assert(spec_obj_get(es, "coordinates"@) == Some(enc_opt_rec(x.coordinates, enc_coordinates())));
    assert(forall|j: int| #![trigger es[j]] 0 <= j < 8 ==> es[j].0 != es[8].0);
    lemma_obj_get_at(es, 8);
    assert(spec_obj_get(es, "last_updated"@) == Some(enc_opt_str(x.last_updated)));
    assert(field_str(es, "id"@) == Some(x.id));
    assert(field_str(es, "name"@) == Some(x.name));
    assert(field_str(es, "alias"@) == Some(x.alias));
    assert(field_str(es, "building_id"@) == Some(x.building_id));
    assert(field_str(es, "description"@) == Some(x.description));
    assert(field_str(es, "campus"@) == Some(x.campus));
    assert(field_str(es, "address"@) == Some(x.address));
    match x.coordinates {
        Some(v) => lemma_coordinates_round_trip(v),
        None => (),
    }
    assert(field_rec(es, "coordinates"@, dec_coordinates()) == Some(x.coordinates));
    assert(field_str(es, "last_updated"@) == Some(x.last_updated));
    assert(spec_parking_from_obj(es) == Some(x));
}

/// Law: decoding an encoded envelope returns the same envelope, provided
/// decoding inverts encoding on every record it carries.
#[verifier::rlimit(100)]
pub proof fn lemma_envelope_round_trip<T>(
    e: ResponseView<T>,
    enc: spec_fn(T) -> JsonV,
    dec: spec_fn(JsonV) -> Option<T>,
)
    requires
        forall|i: int| 0 <= i < e.response.len() ==> dec(enc(#[trigger] e.response[i])) == Some(
            e.response[i],
        ),
    ensures
        spec_envelope_from_json(spec_envelope_to_json(e, enc), dec) == Some(e),
{
    reveal_strlit("response");
    reveal_strlit("status_code");
    reveal_strlit("status_message");
    assert("response"@ =~= seq!['r', 'e', 's', 'p', 'o', 'n', 's', 'e']);
    assert("status_code"@ =~= seq!['s', 't', 'a', 't', 'u', 's', '_', 'c', 'o', 'd', 'e']);
    assert("status_message"@ =~= seq![
        's', 't', 'a', 't', 'u', 's', '_', 'm', 'e', 's', 's', 'a', 'g', 'e',
    ]);
    let es = spec_envelope_to_json(e, enc)->Obj_0;
    lemma_obj_get_at(es, 0);
    assert(spec_obj_get(es, "response"@) == Some(JsonV::Arr(e.response.map_values(enc))));
    assert(forall|j: int| #![trigger es[j]] 0 <= j < 1 ==> es[j].0 != es[1].0);
    lemma_obj_get_at(es, 1);
    assert(spec_obj_get(es, "status_code"@) == Some(enc_opt_int(e.status_code)));
    assert(forall|j: int| #![trigger es[j]] 0 <= j < 2 ==> es[j].0 != es[2].0);
    lemma_obj_get_at(es, 2);
    assert(spec_obj_get(es, "status_message"@) == Some(enc_opt_str(e.status_message)));
    lemma_decode_encoded_list(e.response, enc, dec);
    if e.status_code is Some {
        lemma_parse_i64_print(e.status_code.unwrap());
    }
    assert(field_int(es, "status_code"@) == Some(e.status_code));
    assert(field_str(es, "status_message"@) == Some(e.status_message));
}

/// Law: an envelope of course records round-trips through the codec.
pub proof fn lemma_course_envelope_round_trip(e: ResponseView<CourseView>)
    ensures
        spec_envelope_from_json(
            spec_envelope_to_json(e, enc_course()),
            dec_course(),
        ) == Some(e),
{
    assert forall|i: int| 0 <= i < e.response.len() implies dec_course()(
        enc_course()(#[trigger] e.response[i]),
    ) == Some(e.response[i]) by {
        lemma_course_round_trip(e.response[i]);
    }
    lemma_envelope_round_trip(e, enc_course(), dec_course());
}

/// Law: an envelope of textbook records round-trips through the codec.
pub proof fn lemma_textbook_envelope_round_trip(e: ResponseView<TextbookView>)
    ensures
        spec_envelope_from_json(
            spec_envelope_to_json(e, enc_textbook()),
            dec_textbook(),
        ) == Some(e),
{
    assert forall|i: int| 0 <= i < e.response.len() implies dec_textbook()(
        enc_textbook()(#[trigger] e.response[i]),
    ) == Some(e.response[i]) by {
        lemma_textbook_round_trip(e.response[i]);
    }
    lemma_envelope_round_trip(e, enc_textbook(), dec_textbook());
}

/// Law: an envelope of exam records round-trips through the codec.
pub proof fn lemma_exam_envelope_round_trip(e: ResponseView<ExamView>)
    ensures
        spec_envelope_from_json(
            spec_envelope_to_json(e, enc_exam()),
            dec_exam(),
        ) == Some(e),
{
    assert forall|i: int| 0 <= i < e.response.len() implies dec_exam()(
        enc_exam()(#[trigger] e.response[i]),
    ) == Some(e.response[i]) by {
        lemma_exam_round_trip(e.response[i]);
    }
    lemma_envelope_round_trip(e, enc_exam(), dec_exam());
}

/// Law: an envelope of course evaluation records round-trips through the codec.
pub proof fn lemma_eval_envelope_round_trip(e: ResponseView<EvalView>)
    ensures
        spec_envelope_from_json(
            spec_envelope_to_json(e, enc_eval()),
            dec_eval(),
        ) == Some(e),
{
    assert forall|i: int| 0 <= i < e.response.len() implies dec_eval()(
        enc_eval()(#[trigger] e.response[i]),
    ) == Some(e.response[i]) by {
        lemma_eval_round_trip(e.response[i]);
    }
    lemma_envelope_round_trip(e, enc_eval(), dec_eval());
}

/// Law: an envelope of food vendor records round-trips through the codec.
pub proof fn lemma_food_envelope_round_trip(e: ResponseView<FoodView>)
    ensures
        spec_envelope_from_json(
            spec_envelope_to_json(e, enc_food()),
            dec_food(),
        ) == Some(e),
{
    assert forall|i: int| 0 <= i < e.response.len() implies dec_food()(
        enc_food()(#[trigger] e.response[i]),
    ) == Some(e.response[i]) by {
        lemma_food_round_trip(e.response[i]);
    }
    lemma_envelope_round_trip(e, enc_food(), dec_food());
}

/// Law: an envelope of service records round-trips through the codec.
pub proof fn lemma_service_envelope_round_trip(e: ResponseView<ServiceView>)
    ensures
        spec_envelope_from_json(
            spec_envelope_to_json(e, enc_service()),
            dec_service(),
        ) == Some(e),
{
    assert forall|i: int| 0 <= i < e.response.len() implies dec_service()(
        enc_service()(#[trigger] e.response[i]),
    ) == Some(e.response[i]) by {
        lemma_service_round_trip(e.response[i]);
    }
    lemma_envelope_round_trip(e, enc_service(), dec_service());
}

/// Law: an envelope of building records round-trips through the codec.
pub proof fn lemma_building_envelope_round_trip(e: ResponseView<BuildingView>)
    ensures
        spec_envelope_from_json(
            spec_envelope_to_json(e, enc_building()),
            dec_building(),
        ) == Some(e),
{
    assert forall|i: int| 0 <= i < e.response.len() implies dec_building()(
        enc_building()(#[trigger] e.response[i]),
    ) == Some(e.response[i]) by {
        lemma_building_round_trip(e.response[i]);
    }
    lemma_envelope_round_trip(e, enc_building(), dec_building());
}

/// Law: an envelope of parking records round-trips through the codec.
pub proof fn lemma_parking_envelope_round_trip(e: ResponseView<ParkingView>)
    ensures
        spec_envelope_from_json(
            spec_envelope_to_json(e, enc_parking()),
            dec_parking(),
        ) == Some(e),
{
    assert forall|i: int| 0 <= i < e.response.len() implies dec_parking()(
        enc_parking()(#[trigger] e.response[i]),
    ) == Some(e.response[i]) by {
        lemma_parking_round_trip(e.response[i]);
    }
    lemma_envelope_round_trip(e, enc_parking(), dec_parking());
}

/// Law: an object with no members decodes to the meeting time whose every
/// scalar field is absent and every sequence field empty.
pub proof fn lemma_time_absent_members()
    ensures
        spec_time_from_json(JsonV::Obj(Seq::empty())) == Some(
            (TimeView {
                day: None,
                start: None,
                end: None,
                duration: None,
                location: None,
            }),
        ),
{
}

/// Law: an object with no members decodes to the course meeting section whose every
/// scalar field is absent and every sequence field empty.
pub proof fn lemma_courses_meeting_section_absent_members()
    ensures
        spec_courses_meeting_section_from_json(JsonV::Obj(Seq::empty())) == Some(
            (CoursesMeetingSectionView {
                code: None,
                instructors: Seq::empty(),
                times: Seq::empty(),
                size: None,
                enrollment: None,
                waitlist_option: None,
                delivery: None,
            }),
        ),
{
}

/// Law: an object with no members decodes to the course record whose every
/// scalar field is absent and every sequence field empty.
pub proof fn lemma_course_absent_members()
    ensures
        spec_course_from_json(JsonV::Obj(Seq::empty())) == Some(
            (CourseView {
                id: None,
                code: None,
                name: None,
                description: None,
                division: None,
                department: None,
                prerequisites: None,
                corequisites: None,
                exclusions: None,
                recommended_preparation: None,
                level: None,
                campus: None,
                term: None,
                arts_and_science_breadth: None,
                arts_and_science_distribution: None,
                utm_distribution: None,
                utsc_breadth: None,
                apsc_electives: None,
                meeting_sections: Seq::empty(),
                last_updated: None,
            }),
        ),
{
}

/// Law: an object with no members decodes to the textbook meeting section whose every
/// scalar field is absent and every sequence field empty.
pub proof fn lemma_textbooks_meeting_section_absent_members()
    ensures
        spec_textbooks_meeting_section_from_json(JsonV::Obj(Seq::empty())) == Some(
            (TextbooksMeetingSectionView {
                code: None,
                instructors: Seq::empty(),
            }),
        ),
{
}

/// Law: an object with no members decodes to the textbook course reference whose every
/// scalar field is absent and every sequence field empty.
pub proof fn lemma_textbooks_course_absent_members()
    ensures
        spec_textbooks_course_from_json(JsonV::Obj(Seq::empty())) == Some(
            (TextbooksCourseView {
                id: None,
                code: None,
                requirement: None,
                meeting_sections: Seq::empty(),
            }),
        ),
{
}

/// Law: an object with no members decodes to the textbook record whose every
/// scalar field is absent and every sequence field empty.
pub proof fn lemma_textbook_absent_members()
    ensures
        spec_textbook_from_json(JsonV::Obj(Seq::empty())) == Some(
            (TextbookView {
                id: None,
                isbn: None,
                title: None,
                edition: None,
                author: None,
                image: None,
                price: None,
                url: None,
                courses: Seq::empty(),
                last_updated: None,
            }),
        ),
{
}

/// Law: an object with no members decodes to the exam section whose every
/// scalar field is absent and every sequence field empty.
pub proof fn lemma_exam_section_absent_members()
    ensures
        spec_exam_section_from_json(JsonV::Obj(Seq::empty())) == Some(
            (ExamSectionView {
                lecture_code: None,
                split: None,
                location: None,
            }),
        ),
{
}

/// Law: an object with no members decodes to the exam record whose every
/// scalar field is absent and every sequence field empty.
pub proof fn lemma_exam_absent_members()
    ensures
        spec_exam_from_json(JsonV::Obj(Seq::empty())) == Some(
            (ExamView {
                id: None,
                course_id: None,
                course_code: None,
                campus: None,
                date: None,
                start: None,
                end: None,
                duration: None,
                sections: Seq::empty(),
                last_updated: None,
            }),
        ),
{
}

/// Law: an object with no members decodes to the evaluated lecture whose every
/// scalar field is absent and every sequence field empty.
pub proof fn lemma_eval_lecture_absent_members()
    ensures
        spec_eval_lecture_from_json(JsonV::Obj(Seq::empty())) == Some(
            (EvalLectureView {
                lecture_code: None,
                firstname: None,
                lastname: None,
                s1: None,
                s2: None,
                s3: None,
                s4: None,
                s5: None,
                s6: None,
                invited: None,
                responses: None,
            }),
        ),
{
}

/// Law: an object with no members decodes to the evaluation term whose every
/// scalar field is absent and every sequence field empty.
pub proof fn lemma_eval_term_absent_members()
    ensures
        spec_eval_term_from_json(JsonV::Obj(Seq::empty())) == Some(
            (EvalTermView {
                term: None,
                lectures: Seq::empty(),
            }),
        ),
{
}

/// Law: an object with no members decodes to the course evaluation record whose every
/// scalar field is absent and every sequence field empty.
pub proof fn lemma_eval_absent_members()
    ensures
        spec_eval_from_json(JsonV::Obj(Seq::empty())) == Some(
            (EvalView {
                id: None,
                name: None,
                campus: None,
                terms: Seq::empty(),
                last_updated: None,
            }),
        ),
{
}

/// Law: an object with no members decodes to the day schedule whose every
/// scalar field is absent and every sequence field empty.
pub proof fn lemma_day_hours_absent_members()
    ensures
        spec_day_hours_from_json(JsonV::Obj(Seq::empty())) == Some(
            (DayHoursView {
                closed: None,
                open: None,
                close: None,
            }),
        ),
{
}

/// Law: an object with no members decodes to the weekly opening hours record whose every
/// scalar field is absent and every sequence field empty.
pub proof fn lemma_hours_absent_members()
    ensures
        spec_hours_from_json(JsonV::Obj(Seq::empty())) == Some(
            (HoursView {
                sunday: None,
                monday: None,
                tuesday: None,
                wednesday: None,
                thursday: None,
                friday: None,
                saturday: None,
            }),
        ),
{
}

/// Law: an object with no members decodes to the coordinate pair whose every
/// scalar field is absent and every sequence field empty.
pub proof fn lemma_coordinates_absent_members()
    ensures
        spec_coordinates_from_json(JsonV::Obj(Seq::empty())) == Some(
            (CoordinatesView {
                latitude: None,
                longitude: None,
            }),
        ),
{
}

/// Law: an object with no members decodes to the food vendor record whose every
/// scalar field is absent and every sequence field empty.
pub proof fn lemma_food_absent_members()
    ensures
        spec_food_from_json(JsonV::Obj(Seq::empty())) == Some(
            (FoodView {
                id: None,
                name: None,
                description: None,
                tags: None,
                campus: None,
                address: None,
                coordinates: None,
                hours: None,
                image: None,
                url: None,
                twitter: None,
                facebook: None,
                attributes: Seq::empty(),
                last_updated: None,
            }),
        ),
{
}

/// Law: an object with no members decodes to the service record whose every
/// scalar field is absent and every sequence field empty.
pub proof fn lemma_service_absent_members()
    ensures
        spec_service_from_json(JsonV::Obj(Seq::empty())) == Some(
            (ServiceView {
                id: None,
                name: None,
                alias: None,
                building_id: None,
                description: None,
                campus: None,
                address: None,
                image: None,
                coordinates: None,
                tags: None,
                attributes: Seq::empty(),
                last_updated: None,
            }),
        ),
{
}

/// Law: an object with no members decodes to the street address whose every
/// scalar field is absent and every sequence field empty.
pub proof fn lemma_building_address_absent_members()
    ensures
        spec_building_address_from_json(JsonV::Obj(Seq::empty())) == Some(
            (BuildingAddressView {
                street: None,
                city: None,
                province: None,
                country: None,
                postal: None,
            }),
        ),
{
}

/// Law: an object with no members decodes to the building record whose every
/// scalar field is absent and every sequence field empty.
pub proof fn lemma_building_absent_members()
    ensures
        spec_building_from_json(JsonV::Obj(Seq::empty())) == Some(
            (BuildingView {
                id: None,
                code: None,
                tags: None,
                name: None,
                short_name: None,
                address: None,
                coordinates: None,
                last_updated: None,
            }),
        ),
{
}

/// Law: an object with no members decodes to the parking record whose every
/// scalar field is absent and every sequence field empty.
pub proof fn lemma_parking_absent_members()
    ensures
        spec_parking_from_json(JsonV::Obj(Seq::empty())) == Some(
            (ParkingView {
                id: None,
                name: None,
                alias: None,
                building_id: None,
                description: None,
                campus: None,
                address: None,
                coordinates: None,
                last_updated: None,
            }),
        ),
{
}

/// Law: a body holding only an empty `response` array decodes to the
/// envelope with no records and both status members absent.
pub proof fn lemma_empty_envelope<T>(f: spec_fn(JsonV) -> Option<T>)
    ensures
        spec_envelope_from_json(
            JsonV::Obj(seq![("response"@, JsonV::Arr(Seq::<JsonV>::empty()))]),
            f,
        ) == Some(
            (ResponseView::<T> { response: Seq::empty(), status_code: None, status_message: None }),
        ),
{
    reveal_strlit("response");
    reveal_strlit("status_code");
    reveal_strlit("status_message");
    assert("response"@ =~= seq!['r', 'e', 's', 'p', 'o', 'n', 's', 'e']);
    assert("status_code"@ =~= seq!['s', 't', 'a', 't', 'u', 's', '_', 'c', 'o', 'd', 'e']);
    assert("status_message"@ =~= seq![
        's', 't', 'a', 't', 'u', 's', '_', 'm', 'e', 's', 's', 'a', 'g', 'e',
    ]);
    let es = seq![("response"@, JsonV::Arr(Seq::<JsonV>::empty()))];
    lemma_obj_get_at(es, 0);
    assert(es.drop_first() =~= Seq::<(Seq<char>, JsonV)>::empty());
    assert(spec_obj_get(es.drop_first(), "status_code"@) is None);
    assert(spec_obj_get(es, "status_code"@) is None);
    assert(spec_obj_get(es.drop_first(), "status_message"@) is None);
    assert(spec_obj_get(es, "status_message"@) is None);
}

} // verus!
