//! Decoding of JSON trees into the record types.
//!
//! For each record there is a spec-level decoder over the tree model and an
//! executable decoder proved to agree with it exactly. Scalar members may be
//! absent or `null`; sequence members default to empty when absent; any
//! member of the wrong JSON type fails the whole record.

use vstd::prelude::*;

use crate::json::{
    field_bool, field_int, field_list, field_num, field_rec, field_str, get_field_bool,
    get_field_int, get_field_num, get_field_str, json_pairs_view, json_seq_view, json_view,
    obj_get, spec_decode_list, spec_obj_get, Json, JsonV,
};
use crate::records::{
    Building, BuildingAddress, BuildingAddressView, BuildingView, Coordinates, CoordinatesView,
    Course, CourseView, CoursesMeetingSection, CoursesMeetingSectionView, DayHours, DayHoursView,
    Eval, EvalLecture, EvalLectureView, EvalTerm, EvalTermView, EvalView, Exam, ExamSection,
    ExamSectionView, ExamView, Food, FoodView, Hours, HoursView, JsonNumber, Parking, ParkingView,
    Response, ResponseView, Service, ServiceView, Textbook, TextbookView, TextbooksCourse,
    TextbooksCourseView, TextbooksMeetingSection, TextbooksMeetingSectionView, Time, TimeView,
};

verus! {

/// Decode a string element of an array.
pub open spec fn spec_string_from_json(j: JsonV) -> Option<Seq<char>> {
    match j {
        JsonV::Str(s) => Some(s),
        _ => None,
    }
}

pub open spec fn dec_string() -> spec_fn(JsonV) -> Option<Seq<char>> {
    |j: JsonV| spec_string_from_json(j)
}

/// Decode a string element, exactly as `spec_string_from_json` does.
pub fn string_from_json(j: &Json) -> (r: Option<String>)
    ensures
        match r {
            Some(v) => spec_string_from_json(j@) == Some(v@),
            None => spec_string_from_json(j@) is None,
        },
{
    match j {
        Json::Str(s) => Some(s.clone()),
        _ => None,
    }
}

/// Read an optional number member as a [`JsonNumber`].
pub fn get_field_number(es: &Vec<(String, Json)>, k: &str) -> (r: Option<Option<JsonNumber>>)
    ensures
        match r {
            Some(v) => field_num(json_pairs_view(*es), k@) == Some(v.deep_view()),
            None => field_num(json_pairs_view(*es), k@) is None,
        },
{
    match get_field_num(es, k) {
        None => None,
        Some(None) => Some(None),
        Some(Some(t)) => Some(Some(JsonNumber { text: t })),
    }
}

/// Decode every element of an array of strings.
pub fn dec_string_list(a: &Vec<Json>) -> (r: Option<Vec<String>>)
    ensures
        match r {
            Some(v) => spec_decode_list(json_seq_view(*a), dec_string()) == Some(v.deep_view()),
            None => spec_decode_list(json_seq_view(*a), dec_string()) is None,
        },
{
    let ghost f = dec_string();
    let ghost av = json_seq_view(*a);
    let mut out: Vec<String> = Vec::new();
    proof {
        assert(av.skip(0) =~= av);
        assert(out.deep_view() =~= Seq::<Seq<char>>::empty());
    }
    let mut i: usize = 0;
    while i < a.len()
        invariant
            i <= a@.len(),
            av == json_seq_view(*a),
            f == dec_string(),
            av.len() == a@.len(),
            out.deep_view().len() == i as int,
            match spec_decode_list(av.skip(i as int), f) {
                Some(rest) => spec_decode_list(av, f) == Some(out.deep_view() + rest),
                None => spec_decode_list(av, f) is None,
            },
        decreases a@.len() - i,
    {
        let ghost outdv = out.deep_view();
        let x = &a[i];
        proof {
            assert(av.skip(i as int)[0] == av[i as int]);
            assert(av[i as int] == json_view(a@[i as int]));
            assert(av.skip(i as int).drop_first() =~= av.skip(i as int + 1));
        }
        match string_from_json(x) {
            None => {
                proof {
                    assert(f(av.skip(i as int)[0]) is None);
                }
                return None;
            },
            Some(t) => {
                proof {
                    assert(f(av.skip(i as int)[0]) == Some(t@));
                }
                out.push(t);
                proof {
                    assert(out.deep_view() =~= outdv.push(t@));
                    if spec_decode_list(av.skip(i as int + 1), f) is Some {
                        let rest = spec_decode_list(av.skip(i as int + 1), f).unwrap();
                        assert(outdv + (seq![t@] + rest) =~= outdv.push(t@) + rest);
                    }
                }
            },
        }
        i += 1;
    }
    proof {
        assert(av.skip(i as int) =~= Seq::<JsonV>::empty());
        assert(out.deep_view() + Seq::<Seq<char>>::empty() =~= out.deep_view());
    }
    Some(out)
}

/// Read a sequence member of strings: absent means empty.
pub fn get_field_string_list(es: &Vec<(String, Json)>, k: &str) -> (r: Option<Vec<String>>)
    ensures
        match r {
            Some(v) => field_list(json_pairs_view(*es), k@, dec_string()) == Some(v.deep_view()),
            None => field_list(json_pairs_view(*es), k@, dec_string()) is None,
        },
{
    match obj_get(es, k) {
        None => {
            let out: Vec<String> = Vec::new();
            proof {
                assert(out.deep_view() =~= Seq::<Seq<char>>::empty());
            }
            Some(out)
        },
        Some(j) => match j {
            Json::Arr(a) => dec_string_list(a),
            _ => None,
        },
    }
}

/// Decode a meeting time from an object's members.
pub open spec fn spec_time_from_obj(es: Seq<(Seq<char>, JsonV)>) -> Option<TimeView> {
    if field_str(es, "day"@).is_some() && field_int(es, "start"@).is_some() && field_int(es, "end"@).is_some() && field_int(es, "duration"@).is_some() && field_str(es, "location"@).is_some() {
        Some(TimeView {
            day: field_str(es, "day"@).unwrap(),
            start: field_int(es, "start"@).unwrap(),
            end: field_int(es, "end"@).unwrap(),
            duration: field_int(es, "duration"@).unwrap(),
            location: field_str(es, "location"@).unwrap(),
        })
    } else {
        None
    }
}

/// Decode a meeting time: anything but an object fails.
pub open spec fn spec_time_from_json(j: JsonV) -> Option<TimeView> {
    match j {
        JsonV::Obj(es) => spec_time_from_obj(es),
        _ => None,
    }
}

pub open spec fn dec_time() -> spec_fn(JsonV) -> Option<TimeView> {
    |j: JsonV| spec_time_from_json(j)
}

/// Decode a meeting time, exactly as `spec_time_from_json` does on the model.
pub fn time_from_json(j: &Json) -> (r: Option<Time>)
    ensures
        match r {
            Some(v) => spec_time_from_json(j@) == Some(v@),
            None => spec_time_from_json(j@) is None,
        },
{
    match j {
        Json::Obj(es) => {
            let day = match get_field_str(es, "day") {
                Some(v) => v,
                None => {
                    return None;
                },
            };
            let start = match get_field_int(es, "start") {
                Some(v) => v,
                None => {
                    return None;
                },
            };
            let end = match get_field_int(es, "end") {
                Some(v) => v,
                None => {
                    return None;
                },
            };
            let duration = match get_field_int(es, "duration") {
                Some(v) => v,
                None => {
                    return None;
                },
            };
            let location = match get_field_str(es, "location") {
                Some(v) => v,
                None => {
                    return None;
                },
            };
            Some(Time { day, start, end, duration, location })
        },
        _ => None,
    }
}

/// Decode every element of an array of a meeting times.
pub fn dec_time_list(a: &Vec<Json>) -> (r: Option<Vec<Time>>)
    ensures
        match r {
            Some(v) => spec_decode_list(json_seq_view(*a), dec_time()) == Some(v.deep_view()),
            None => spec_decode_list(json_seq_view(*a), dec_time()) is None,
        },
{
    let ghost f = dec_time();
    let ghost av = json_seq_view(*a);
    let mut out: Vec<Time> = Vec::new();
    proof {
        assert(av.skip(0) =~= av);
        assert(out.deep_view() =~= Seq::<TimeView>::empty());
    }
    let mut i: usize = 0;
    while i < a.len()
        invariant
            i <= a@.len(),
            av == json_seq_view(*a),
            f == dec_time(),
            av.len() == a@.len(),
            out.deep_view().len() == i as int,
            match spec_decode_list(av.skip(i as int), f) {
                Some(rest) => spec_decode_list(av, f) == Some(out.deep_view() + rest),
                None => spec_decode_list(av, f) is None,
            },
        decreases a@.len() - i,
    {
        let ghost outdv = out.deep_view();
        let x = &a[i];
        proof {
            assert(av.skip(i as int)[0] == av[i as int]);
            assert(av[i as int] == json_view(a@[i as int]));
            assert(av.skip(i as int).drop_first() =~= av.skip(i as int + 1));
        }
        match time_from_json(x) {
            None => {
                proof {
                    assert(f(av.skip(i as int)[0]) is None);
                }
                return None;
            },
            Some(t) => {
                proof {
                    assert(f(av.skip(i as int)[0]) == Some(t@));
                }
                out.push(t);
                proof {
                    assert(out.deep_view() =~= outdv.push(t@));
                    if spec_decode_list(av.skip(i as int + 1), f) is Some {
                        let rest = spec_decode_list(av.skip(i as int + 1), f).unwrap();
                        assert(outdv + (seq![t@] + rest) =~= outdv.push(t@) + rest);
                    }
                }
            },
        }
        i += 1;
    }
    proof {
        assert(av.skip(i as int) =~= Seq::<JsonV>::empty());
        assert(out.deep_view() + Seq::<TimeView>::empty() =~= out.deep_view());
    }
    Some(out)
}

/// Read a sequence member of a meeting times: absent means empty.
pub fn get_field_time_list(es: &Vec<(String, Json)>, k: &str) -> (r: Option<Vec<Time>>)
    ensures
        match r {
            Some(v) => field_list(json_pairs_view(*es), k@, dec_time()) == Some(v.deep_view()),
            None => field_list(json_pairs_view(*es), k@, dec_time()) is None,
        },
{
    match obj_get(es, k) {
        None => {
            let out: Vec<Time> = Vec::new();
            proof {
                assert(out.deep_view() =~= Seq::<TimeView>::empty());
            }
            Some(out)
        },
        Some(j) => match j {
            Json::Arr(a) => dec_time_list(a),
            _ => None,
        },
    }
}

/// Decode a course meeting section from an object's members.
pub open spec fn spec_courses_meeting_section_from_obj(es: Seq<(Seq<char>, JsonV)>) -> Option<CoursesMeetingSectionView> {
    if field_str(es, "code"@).is_some() && field_list(es, "instructors"@, dec_string()).is_some() && field_list(es, "times"@, dec_time()).is_some() && field_int(es, "size"@).is_some() && field_int(es, "enrollment"@).is_some() && field_bool(es, "waitlist_option"@).is_some() && field_str(es, "delivery"@).is_some() {
        Some(CoursesMeetingSectionView {
            code: field_str(es, "code"@).unwrap(),
            instructors: field_list(es, "instructors"@, dec_string()).unwrap(),
            times: field_list(es, "times"@, dec_time()).unwrap(),
            size: field_int(es, "size"@).unwrap(),
            enrollment: field_int(es, "enrollment"@).unwrap(),
            waitlist_option: field_bool(es, "waitlist_option"@).unwrap(),
            delivery: field_str(es, "delivery"@).unwrap(),
        })
    } else {
        None
    }
}

/// Decode a course meeting section: anything but an object fails.
pub open spec fn spec_courses_meeting_section_from_json(j: JsonV) -> Option<CoursesMeetingSectionView> {
    match j {
        JsonV::Obj(es) => spec_courses_meeting_section_from_obj(es),
        _ => None,
    }
}

pub open spec fn dec_courses_meeting_section() -> spec_fn(JsonV) -> Option<CoursesMeetingSectionView> {
    |j: JsonV| spec_courses_meeting_section_from_json(j)
}

/// Decode a course meeting section, exactly as `spec_courses_meeting_section_from_json` does on the model.
pub fn courses_meeting_section_from_json(j: &Json) -> (r: Option<CoursesMeetingSection>)
    ensures
        match r {
            Some(v) => spec_courses_meeting_section_from_json(j@) == Some(v@),
            None => spec_courses_meeting_section_from_json(j@) is None,
        },
{
    match j {
        Json::Obj(es) => {
            let code = match get_field_str(es, "code") {
                Some(v) => v,
                None => {
                    return None;
                },
            };
            let instructors = match get_field_string_list(es, "instructors") {
                Some(v) => v,
                None => {
                    return None;
                },
            };
            let times = match get_field_time_list(es, "times") {
                Some(v) => v,
                None => {
                    return None;
                },
            };
            let size = match get_field_int(es, "size") {
                Some(v) => v,
                None => {
                    return None;
                },
            };
            let enrollment = match get_field_int(es, "enrollment") {
                Some(v) => v,
                None => {
                    return None;
                },
            };
            let waitlist_option = match get_field_bool(es, "waitlist_option") {
                Some(v) => v,
                None => {
                    return None;
                },
            };
            let delivery = match get_field_str(es, "delivery") {
                Some(v) => v,
                None => {
                    return None;
                },
            };
            Some(CoursesMeetingSection { code, instructors, times, size, enrollment, waitlist_option, delivery })
        },
        _ => None,
    }
}

/// Decode every element of an array of a course meeting sections.
pub fn dec_courses_meeting_section_list(a: &Vec<Json>) -> (r: Option<Vec<CoursesMeetingSection>>)
    ensures
        match r {
            Some(v) => spec_decode_list(json_seq_view(*a), dec_courses_meeting_section()) == Some(v.deep_view()),
            None => spec_decode_list(json_seq_view(*a), dec_courses_meeting_section()) is None,
        },
{
    let ghost f = dec_courses_meeting_section();
    let ghost av = json_seq_view(*a);
    let mut out: Vec<CoursesMeetingSection> = Vec::new();
    proof {
        assert(av.skip(0) =~= av);
        assert(out.deep_view() =~= Seq::<CoursesMeetingSectionView>::empty());
    }
    let mut i: usize = 0;
    while i < a.len()
        invariant
            i <= a@.len(),
            av == json_seq_view(*a),
            f == dec_courses_meeting_section(),
            av.len() == a@.len(),
            out.deep_view().len() == i as int,
            match spec_decode_list(av.skip(i as int), f) {
                Some(rest) => spec_decode_list(av, f) == Some(out.deep_view() + rest),
                None => spec_decode_list(av, f) is None,
            },
        decreases a@.len() - i,
    {
        let ghost outdv = out.deep_view();
        let x = &a[i];
        proof {
            assert(av.skip(i as int)[0] == av[i as int]);
            assert(av[i as int] == json_view(a@[i as int]));
            assert(av.skip(i as int).drop_first() =~= av.skip(i as int + 1));
        }
        match courses_meeting_section_from_json(x) {
            None => {
                proof {
                    assert(f(av.skip(i as int)[0]) is None);
                }
                return None;
            },
            Some(t) => {
                proof {
                    assert(f(av.skip(i as int)[0]) == Some(t@));
                }
                out.push(t);
                proof {
                    assert(out.deep_view() =~= outdv.push(t@));
                    if spec_decode_list(av.skip(i as int + 1), f) is Some {
                        let rest = spec_decode_list(av.skip(i as int + 1), f).unwrap();
                        assert(outdv + (seq![t@] + rest) =~= outdv.push(t@) + rest);
                    }
                }
            },
        }
        i += 1;
    }
    proof {
        assert(av.skip(i as int) =~= Seq::<JsonV>::empty());
        assert(out.deep_view() + Seq::<CoursesMeetingSectionView>::empty() =~= out.deep_view());
    }
    Some(out)
}

/// Read a sequence member of a course meeting sections: absent means empty.
pub fn get_field_courses_meeting_section_list(es: &Vec<(String, Json)>, k: &str) -> (r: Option<Vec<CoursesMeetingSection>>)
    ensures
        match r {
            Some(v) => field_list(json_pairs_view(*es), k@, dec_courses_meeting_section()) == Some(v.deep_view()),
            None => field_list(json_pairs_view(*es), k@, dec_courses_meeting_section()) is None,
        },
{
    match obj_get(es, k) {
        None => {
            let out: Vec<CoursesMeetingSection> = Vec::new();
            proof {
                assert(out.deep_view() =~= Seq::<CoursesMeetingSectionView>::empty());
            }
            Some(out)
        },
        Some(j) => match j {
            Json::Arr(a) => dec_courses_meeting_section_list(a),
            _ => None,
        },
    }
}

/// Decode a course record from an object's members.
pub open spec fn spec_course_from_obj(es: Seq<(Seq<char>, JsonV)>) -> Option<CourseView> {
    if field_str(es, "id"@).is_some() && field_str(es, "code"@).is_some() && field_str(es, "name"@).is_some() && field_str(es, "description"@).is_some() && field_str(es, "division"@).is_some() && field_str(es, "department"@).is_some() && field_str(es, "prerequisites"@).is_some() && field_str(es, "corequisites"@).is_some() && field_str(es, "exclusions"@).is_some() && field_str(es, "recommended_preparation"@).is_some() && field_str(es, "level"@).is_some() && field_str(es, "campus"@).is_some() && field_str(es, "term"@).is_some() && field_str(es, "arts_and_science_breadth"@).is_some() && field_str(es, "arts_and_science_distribution"@).is_some() && field_str(es, "utm_distribution"@).is_some() && field_str(es, "utsc_breadth"@).is_some() && field_str(es, "apsc_electives"@).is_some() && field_list(es, "meeting_sections"@, dec_courses_meeting_section()).is_some() && field_str(es, "last_updated"@).is_some() {
        Some(CourseView {
            id: field_str(es, "id"@).unwrap(),
            code: field_str(es, "code"@).unwrap(),
            name: field_str(es, "name"@).unwrap(),
            description: field_str(es, "description"@).unwrap(),
            division: field_str(es, "division"@).unwrap(),
            department: field_str(es, "department"@).unwrap(),
            prerequisites: field_str(es, "prerequisites"@).unwrap(),
            corequisites: field_str(es, "corequisites"@).unwrap(),
            exclusions: field_str(es, "exclusions"@).unwrap(),
            recommended_preparation: field_str(es, "recommended_preparation"@).unwrap(),
            level: field_str(es, "level"@).unwrap(),
            campus: field_str(es, "campus"@).unwrap(),
            term: field_str(es, "term"@).unwrap(),
            arts_and_science_breadth: field_str(es, "arts_and_science_breadth"@).unwrap(),
            arts_and_science_distribution: field_str(es, "arts_and_science_distribution"@).unwrap(),
            utm_distribution: field_str(es, "utm_distribution"@).unwrap(),
            utsc_breadth: field_str(es, "utsc_breadth"@).unwrap(),
            apsc_electives: field_str(es, "apsc_electives"@).unwrap(),
            meeting_sections: field_list(es, "meeting_sections"@, dec_courses_meeting_section()).unwrap(),
            last_updated: field_str(es, "last_updated"@).unwrap(),
        })
    } else {
        None
    }
}

/// Decode a course record: anything but an object fails.
pub open spec fn spec_course_from_json(j: JsonV) -> Option<CourseView> {
    match j {
        JsonV::Obj(es) => spec_course_from_obj(es),
        _ => None,
    }
}

pub open spec fn dec_course() -> spec_fn(JsonV) -> Option<CourseView> {
    |j: JsonV| spec_course_from_json(j)
}

/// Decode a course record, exactly as `spec_course_from_json` does on the model.
pub fn course_from_json(j: &Json) -> (r: Option<Course>)
    ensures
        match r {
            Some(v) => spec_course_from_json(j@) == Some(v@),
            None => spec_course_from_json(j@) is None,
        },
{
    match j {
        Json::Obj(es) => {
            let id = match get_field_str(es, "id") {
                Some(v) => v,
                None => {
                    return None;
                },
            };
            let code = match get_field_str(es, "code") {
                Some(v) => v,
                None => {
                    return None;
                },
            };
            let name = match get_field_str(es, "name") {
                Some(v) => v,
                None => {
                    return None;
                },
            };
            let description = match get_field_str(es, "description") {
                Some(v) => v,
                None => {
                    return None;
                },
            };
            let division = match get_field_str(es, "division") {
                Some(v) => v,
                None => {
                    return None;
                },
            };
            let department = match get_field_str(es, "department") {
                Some(v) => v,
                None => {
                    return None;
                },
            };
            let prerequisites = match get_field_str(es, "prerequisites") {
                Some(v) => v,
                None => {
                    return None;
                },
            };
            let corequisites = match get_field_str(es, "corequisites") {
                Some(v) => v,
                None => {
                    return None;
                },
            };
            let exclusions = match get_field_str(es, "exclusions") {
                Some(v) => v,
                None => {
                    return None;
                },
            };
            let recommended_preparation = match get_field_str(es, "recommended_preparation") {
                Some(v) => v,
                None => {
                    return None;
                },
            };
            let level = match get_field_str(es, "level") {
                Some(v) => v,
                None => {
                    return None;
                },
            };
            let campus = match get_field_str(es, "campus") {
                Some(v) => v,
                None => {
                    return None;
                },
            };
            let term = match get_field_str(es, "term") {
                Some(v) => v,
                None => {
                    return None;
                },
            };
            let arts_and_science_breadth = match get_field_str(es, "arts_and_science_breadth") {
                Some(v) => v,
                None => {
                    return None;
                },
            };
            let arts_and_science_distribution = match get_field_str(es, "arts_and_science_distribution") {
                Some(v) => v,
                None => {
                    return None;
                },
            };
            let utm_distribution = match get_field_str(es, "utm_distribution") {
                Some(v) => v,
                None => {
                    return None;
                },
            };
            let utsc_breadth = match get_field_str(es, "utsc_breadth") {
                Some(v) => v,
                None => {
                    return None;
                },
            };
            let apsc_electives = match get_field_str(es, "apsc_electives") {
                Some(v) => v,
                None => {
                    return None;
                },
            };
            let meeting_sections = match get_field_courses_meeting_section_list(es, "meeting_sections") {
                Some(v) => v,
                None => {
                    return None;
                },
            };
            let last_updated = match get_field_str(es, "last_updated") {
                Some(v) => v,
                None => {
                    return None;
                },
            };
            Some(Course { id, code, name, description, division, department, prerequisites, corequisites, exclusions, recommended_preparation, level, campus, term, arts_and_science_breadth, arts_and_science_distribution, utm_distribution, utsc_breadth, apsc_electives, meeting_sections, last_updated })
        },
        _ => None,
    }
}

/// Decode every element of an array of a course records.
pub fn dec_course_list(a: &Vec<Json>) -> (r: Option<Vec<Course>>)
    ensures
        match r {
            Some(v) => spec_decode_list(json_seq_view(*a), dec_course()) == Some(v.deep_view()),
            None => spec_decode_list(json_seq_view(*a), dec_course()) is None,
        },
{
    let ghost f = dec_course();
    let ghost av = json_seq_view(*a);
    let mut out: Vec<Course> = Vec::new();
    proof {
        assert(av.skip(0) =~= av);
        assert(out.deep_view() =~= Seq::<CourseView>::empty());
    }
    let mut i: usize = 0;
    while i < a.len()
        invariant
            i <= a@.len(),
            av == json_seq_view(*a),
            f == dec_course(),
            av.len() == a@.len(),
            out.deep_view().len() == i as int,
            match spec_decode_list(av.skip(i as int), f) {
                Some(rest) => spec_decode_list(av, f) == Some(out.deep_view() + rest),
                None => spec_decode_list(av, f) is None,
            },
        decreases a@.len() - i,
    {
        let ghost outdv = out.deep_view();
        let x = &a[i];
        proof {
            assert(av.skip(i as int)[0] == av[i as int]);
            assert(av[i as int] == json_view(a@[i as int]));
            assert(av.skip(i as int).drop_first() =~= av.skip(i as int + 1));
        }
        match course_from_json(x) {
            None => {
                proof {
                    assert(f(av.skip(i as int)[0]) is None);
                }
                return None;
            },
            Some(t) => {
                proof {
                    assert(f(av.skip(i as int)[0]) == Some(t@));
                }
                out.push(t);
                proof {
                    assert(out.deep_view() =~= outdv.push(t@));
                    if spec_decode_list(av.skip(i as int + 1), f) is Some {
                        let rest = spec_decode_list(av.skip(i as int + 1), f).unwrap();
                        assert(outdv + (seq![t@] + rest) =~= outdv.push(t@) + rest);
                    }
                }
            },
        }
        i += 1;
    }
    proof {
        assert(av.skip(i as int) =~= Seq::<JsonV>::empty());
        assert(out.deep_view() + Seq::<CourseView>::empty() =~= out.deep_view());
    }
    Some(out)
}

/// Decode a textbook meeting section from an object's members.
pub open spec fn spec_textbooks_meeting_section_from_obj(es: Seq<(Seq<char>, JsonV)>) -> Option<TextbooksMeetingSectionView> {
    if field_str(es, "code"@).is_some() && field_list(es, "instructors"@, dec_string()).is_some() {
        Some(TextbooksMeetingSectionView {
            code: field_str(es, "code"@).unwrap(),
            instructors: field_list(es, "instructors"@, dec_string()).unwrap(),
        })
    } else {
        None
    }
}

/// Decode a textbook meeting section: anything but an object fails.
pub open spec fn spec_textbooks_meeting_section_from_json(j: JsonV) -> Option<TextbooksMeetingSectionView> {
    match j {
        JsonV::Obj(es) => spec_textbooks_meeting_section_from_obj(es),
        _ => None,
    }
}

pub open spec fn dec_textbooks_meeting_section() -> spec_fn(JsonV) -> Option<TextbooksMeetingSectionView> {
    |j: JsonV| spec_textbooks_meeting_section_from_json(j)
}

/// Decode a textbook meeting section, exactly as `spec_textbooks_meeting_section_from_json` does on the model.
pub fn textbooks_meeting_section_from_json(j: &Json) -> (r: Option<TextbooksMeetingSection>)
    ensures
        match r {
            Some(v) => spec_textbooks_meeting_section_from_json(j@) == Some(v@),
            None => spec_textbooks_meeting_section_from_json(j@) is None,
        },
{
    match j {
        Json::Obj(es) => {
            let code = match get_field_str(es, "code") {
                Some(v) => v,
                None => {
                    return None;
                },
            };
            let instructors = match get_field_string_list(es, "instructors") {
                Some(v) => v,
                None => {
                    return None;
                },
            };
            Some(TextbooksMeetingSection { code, instructors })
        },
        _ => None,
    }
}

/// Decode every element of an array of a textbook meeting sections.
pub fn dec_textbooks_meeting_section_list(a: &Vec<Json>) -> (r: Option<Vec<TextbooksMeetingSection>>)
    ensures
        match r {
            Some(v) => spec_decode_list(json_seq_view(*a), dec_textbooks_meeting_section()) == Some(v.deep_view()),
            None => spec_decode_list(json_seq_view(*a), dec_textbooks_meeting_section()) is None,
        },
{
    let ghost f = dec_textbooks_meeting_section();
    let ghost av = json_seq_view(*a);
    let mut out: Vec<TextbooksMeetingSection> = Vec::new();
    proof {
        assert(av.skip(0) =~= av);
        assert(out.deep_view() =~= Seq::<TextbooksMeetingSectionView>::empty());
    }
    let mut i: usize = 0;
    while i < a.len()
        invariant
            i <= a@.len(),
            av == json_seq_view(*a),
            f == dec_textbooks_meeting_section(),
            av.len() == a@.len(),
            out.deep_view().len() == i as int,
            match spec_decode_list(av.skip(i as int), f) {
                Some(rest) => spec_decode_list(av, f) == Some(out.deep_view() + rest),
                None => spec_decode_list(av, f) is None,
            },
        decreases a@.len() - i,
    {
        let ghost outdv = out.deep_view();
        let x = &a[i];
        proof {
            assert(av.skip(i as int)[0] == av[i as int]);
            assert(av[i as int] == json_view(a@[i as int]));
            assert(av.skip(i as int).drop_first() =~= av.skip(i as int + 1));
        }
        match textbooks_meeting_section_from_json(x) {
            None => {
                proof {
                    assert(f(av.skip(i as int)[0]) is None);
                }
                return None;
            },
            Some(t) => {
                proof {
                    assert(f(av.skip(i as int)[0]) == Some(t@));
                }
                out.push(t);
                proof {
                    assert(out.deep_view() =~= outdv.push(t@));
                    if spec_decode_list(av.skip(i as int + 1), f) is Some {
                        let rest = spec_decode_list(av.skip(i as int + 1), f).unwrap();
                        assert(outdv + (seq![t@] + rest) =~= outdv.push(t@) + rest);
                    }
                }
            },
        }
        i += 1;
    }
    proof {
        assert(av.skip(i as int) =~= Seq::<JsonV>::empty());
        assert(out.deep_view() + Seq::<TextbooksMeetingSectionView>::empty() =~= out.deep_view());
    }
    Some(out)
}

/// Read a sequence member of a textbook meeting sections: absent means empty.
pub fn get_field_textbooks_meeting_section_list(es: &Vec<(String, Json)>, k: &str) -> (r: Option<Vec<TextbooksMeetingSection>>)
    ensures
        match r {
            Some(v) => field_list(json_pairs_view(*es), k@, dec_textbooks_meeting_section()) == Some(v.deep_view()),
            None => field_list(json_pairs_view(*es), k@, dec_textbooks_meeting_section()) is None,
        },
{
    match obj_get(es, k) {
        None => {
            let out: Vec<TextbooksMeetingSection> = Vec::new();
            proof {
                assert(out.deep_view() =~= Seq::<TextbooksMeetingSectionView>::empty());
            }
            Some(out)
        },
        Some(j) => match j {
            Json::Arr(a) => dec_textbooks_meeting_section_list(a),
            _ => None,
        },
    }
}

/// Decode a textbook course reference from an object's members.
pub open spec fn spec_textbooks_course_from_obj(es: Seq<(Seq<char>, JsonV)>) -> Option<TextbooksCourseView> {
    if field_str(es, "id"@).is_some() && field_str(es, "code"@).is_some() && field_str(es, "requirement"@).is_some() && field_list(es, "meeting_sections"@, dec_textbooks_meeting_section()).is_some() {
        Some(TextbooksCourseView {
            id: field_str(es, "id"@).unwrap(),
            code: field_str(es, "code"@).unwrap(),
            requirement: field_str(es, "requirement"@).unwrap(),
            meeting_sections: field_list(es, "meeting_sections"@, dec_textbooks_meeting_section()).unwrap(),
        })
    } else {
        None
    }
}

/// Decode a textbook course reference: anything but an object fails.
pub open spec fn spec_textbooks_course_from_json(j: JsonV) -> Option<TextbooksCourseView> {
    match j {
        JsonV::Obj(es) => spec_textbooks_course_from_obj(es),
        _ => None,
    }
}

pub open spec fn dec_textbooks_course() -> spec_fn(JsonV) -> Option<TextbooksCourseView> {
    |j: JsonV| spec_textbooks_course_from_json(j)
}

/// Decode a textbook course reference, exactly as `spec_textbooks_course_from_json` does on the model.
pub fn textbooks_course_from_json(j: &Json) -> (r: Option<TextbooksCourse>)
    ensures
        match r {
            Some(v) => spec_textbooks_course_from_json(j@) == Some(v@),
            None => spec_textbooks_course_from_json(j@) is None,
        },
{
    match j {
        Json::Obj(es) => {
            let id = match get_field_str(es, "id") {
                Some(v) => v,
                None => {
                    return None;
                },
            };
            let code = match get_field_str(es, "code") {
                Some(v) => v,
                None => {
                    return None;
                },
            };
            let requirement = match get_field_str(es, "requirement") {
                Some(v) => v,
                None => {
                    return None;
                },
            };
            let meeting_sections = match get_field_textbooks_meeting_section_list(es, "meeting_sections") {
                Some(v) => v,
                None => {
                    return None;
                },
            };
            Some(TextbooksCourse { id, code, requirement, meeting_sections })
        },
        _ => None,
    }
}

/// Decode every element of an array of a textbook course references.
pub fn dec_textbooks_course_list(a: &Vec<Json>) -> (r: Option<Vec<TextbooksCourse>>)
    ensures
        match r {
            Some(v) => spec_decode_list(json_seq_view(*a), dec_textbooks_course()) == Some(v.deep_view()),
            None => spec_decode_list(json_seq_view(*a), dec_textbooks_course()) is None,
        },
{
    let ghost f = dec_textbooks_course();
    let ghost av = json_seq_view(*a);
    let mut out: Vec<TextbooksCourse> = Vec::new();
    proof {
        assert(av.skip(0) =~= av);
        assert(out.deep_view() =~= Seq::<TextbooksCourseView>::empty());
    }
    let mut i: usize = 0;
    while i < a.len()
        invariant
            i <= a@.len(),
            av == json_seq_view(*a),
            f == dec_textbooks_course(),
            av.len() == a@.len(),
            out.deep_view().len() == i as int,
            match spec_decode_list(av.skip(i as int), f) {
                Some(rest) => spec_decode_list(av, f) == Some(out.deep_view() + rest),
                None => spec_decode_list(av, f) is None,
            },
        decreases a@.len() - i,
    {
        let ghost outdv = out.deep_view();
        let x = &a[i];
        proof {
            assert(av.skip(i as int)[0] == av[i as int]);
            assert(av[i as int] == json_view(a@[i as int]));
            assert(av.skip(i as int).drop_first() =~= av.skip(i as int + 1));
        }
        match textbooks_course_from_json(x) {
            None => {
                proof {
                    assert(f(av.skip(i as int)[0]) is None);
                }
                return None;
            },
            Some(t) => {
                proof {
                    assert(f(av.skip(i as int)[0]) == Some(t@));
                }
                out.push(t);
                proof {
                    assert(out.deep_view() =~= outdv.push(t@));
                    if spec_decode_list(av.skip(i as int + 1), f) is Some {
                        let rest = spec_decode_list(av.skip(i as int + 1), f).unwrap();
                        assert(outdv + (seq![t@] + rest) =~= outdv.push(t@) + rest);
                    }
                }
            },
        }
        i += 1;
    }
    proof {
        assert(av.skip(i as int) =~= Seq::<JsonV>::empty());
        assert(out.deep_view() + Seq::<TextbooksCourseView>::empty() =~= out.deep_view());
    }
    Some(out)
}

/// Read a sequence member of a textbook course references: absent means empty.
pub fn get_field_textbooks_course_list(es: &Vec<(String, Json)>, k: &str) -> (r: Option<Vec<TextbooksCourse>>)
    ensures
        match r {
            Some(v) => field_list(json_pairs_view(*es), k@, dec_textbooks_course()) == Some(v.deep_view()),
            None => field_list(json_pairs_view(*es), k@, dec_textbooks_course()) is None,
        },
{
    match obj_get(es, k) {
        None => {
            let out: Vec<TextbooksCourse> = Vec::new();
            proof {
                assert(out.deep_view() =~= Seq::<TextbooksCourseView>::empty());
            }
            Some(out)
        },
        Some(j) => match j {
            Json::Arr(a) => dec_textbooks_course_list(a),
            _ => None,
        },
    }
}

/// Decode a textbook record from an object's members.
pub open spec fn spec_textbook_from_obj(es: Seq<(Seq<char>, JsonV)>) -> Option<TextbookView> {
    if field_str(es, "id"@).is_some() && field_str(es, "isbn"@).is_some() && field_str(es, "title"@).is_some() && field_int(es, "edition"@).is_some() && field_str(es, "author"@).is_some() && field_str(es, "image"@).is_some() && field_num(es, "price"@).is_some() && field_str(es, "url"@).is_some() && field_list(es, "courses"@, dec_textbooks_course()).is_some() && field_str(es, "last_updated"@).is_some() {
        Some(TextbookView {
            id: field_str(es, "id"@).unwrap(),
            isbn: field_str(es, "isbn"@).unwrap(),
            title: field_str(es, "title"@).unwrap(),
            edition: field_int(es, "edition"@).unwrap(),
            author: field_str(es, "author"@).unwrap(),
            image: field_str(es, "image"@).unwrap(),
            price: field_num(es, "price"@).unwrap(),
            url: field_str(es, "url"@).unwrap(),
            courses: field_list(es, "courses"@, dec_textbooks_course()).unwrap(),
            last_updated: field_str(es, "last_updated"@).unwrap(),
        })
    } else {
        None
    }
}

/// Decode a textbook record: anything but an object fails.
pub open spec fn spec_textbook_from_json(j: JsonV) -> Option<TextbookView> {
    match j {
        JsonV::Obj(es) => spec_textbook_from_obj(es),
        _ => None,
    }
}

pub open spec fn dec_textbook() -> spec_fn(JsonV) -> Option<TextbookView> {
    |j: JsonV| spec_textbook_from_json(j)
}

/// Decode a textbook record, exactly as `spec_textbook_from_json` does on the model.
pub fn textbook_from_json(j: &Json) -> (r: Option<Textbook>)
    ensures
        match r {
            Some(v) => spec_textbook_from_json(j@) == Some(v@),
            None => spec_textbook_from_json(j@) is None,
        },
{
    match j {
        Json::Obj(es) => {
            let id = match get_field_str(es, "id") {
                Some(v) => v,
                None => {
                    return None;
                },
            };
            let isbn = match get_field_str(es, "isbn") {
                Some(v) => v,
                None => {
                    return None;
                },
            };
            let title = match get_field_str(es, "title") {
                Some(v) => v,
                None => {
                    return None;
                },
            };
            let edition = match get_field_int(es, "edition") {
                Some(v) => v,
                None => {
                    return None;
                },
            };
            let author = match get_field_str(es, "author") {
                Some(v) => v,
                None => {
                    return None;
                },
            };
            let image = match get_field_str(es, "image") {
                Some(v) => v,
                None => {
                    return None;
                },
            };
            let price = match get_field_number(es, "price") {
                Some(v) => v,
                None => {
                    return None;
                },
            };
            let url = match get_field_str(es, "url") {
                Some(v) => v,
                None => {
                    return None;
                },
            };
            let courses = match get_field_textbooks_course_list(es, "courses") {
                Some(v) => v,
                None => {
                    return None;
                },
            };
            let last_updated = match get_field_str(es, "last_updated") {
                Some(v) => v,
                None => {
                    return None;
                },
            };
            Some(Textbook { id, isbn, title, edition, author, image, price, url, courses, last_updated })
        },
        _ => None,
    }
}

/// Decode every element of an array of a textbook records.
pub fn dec_textbook_list(a: &Vec<Json>) -> (r: Option<Vec<Textbook>>)
    ensures
        match r {
            Some(v) => spec_decode_list(json_seq_view(*a), dec_textbook()) == Some(v.deep_view()),
            None => spec_decode_list(json_seq_view(*a), dec_textbook()) is None,
        },
{
    let ghost f = dec_textbook();
    let ghost av = json_seq_view(*a);
    let mut out: Vec<Textbook> = Vec::new();
    proof {
        assert(av.skip(0) =~= av);
        assert(out.deep_view() =~= Seq::<TextbookView>::empty());
    }
    let mut i: usize = 0;
    while i < a.len()
        invariant
            i <= a@.len(),
            av == json_seq_view(*a),
            f == dec_textbook(),
            av.len() == a@.len(),
            out.deep_view().len() == i as int,
            match spec_decode_list(av.skip(i as int), f) {
                Some(rest) => spec_decode_list(av, f) == Some(out.deep_view() + rest),
                None => spec_decode_list(av, f) is None,
            },
        decreases a@.len() - i,
    {
        let ghost outdv = out.deep_view();
        let x = &a[i];
        proof {
            assert(av.skip(i as int)[0] == av[i as int]);
            assert(av[i as int] == json_view(a@[i as int]));
            assert(av.skip(i as int).drop_first() =~= av.skip(i as int + 1));
        }
        match textbook_from_json(x) {
            None => {
                proof {
                    assert(f(av.skip(i as int)[0]) is None);
                }
                return None;
            },
            Some(t) => {
                proof {
                    assert(f(av.skip(i as int)[0]) == Some(t@));
                }
                out.push(t);
                proof {
                    assert(out.deep_view() =~= outdv.push(t@));
                    if spec_decode_list(av.skip(i as int + 1), f) is Some {
                        let rest = spec_decode_list(av.skip(i as int + 1), f).unwrap();
                        assert(outdv + (seq![t@] + rest) =~= outdv.push(t@) + rest);
                    }
                }
            },
        }
        i += 1;
    }
    proof {
        assert(av.skip(i as int) =~= Seq::<JsonV>::empty());
        assert(out.deep_view() + Seq::<TextbookView>::empty() =~= out.deep_view());
    }
    Some(out)
}

/// Decode an exam section from an object's members.
pub open spec fn spec_exam_section_from_obj(es: Seq<(Seq<char>, JsonV)>) -> Option<ExamSectionView> {
    if field_str(es, "lecture_code"@).is_some() && field_str(es, "split"@).is_some() && field_str(es, "location"@).is_some() {
        Some(ExamSectionView {
            lecture_code: field_str(es, "lecture_code"@).unwrap(),
            split: field_str(es, "split"@).unwrap(),
            location: field_str(es, "location"@).unwrap(),
        })
    } else {
        None
    }
}

/// Decode an exam section: anything but an object fails.
pub open spec fn spec_exam_section_from_json(j: JsonV) -> Option<ExamSectionView> {
    match j {
        JsonV::Obj(es) => spec_exam_section_from_obj(es),
        _ => None,
    }
}

pub open spec fn dec_exam_section() -> spec_fn(JsonV) -> Option<ExamSectionView> {
    |j: JsonV| spec_exam_section_from_json(j)
}

/// Decode an exam section, exactly as `spec_exam_section_from_json` does on the model.
pub fn exam_section_from_json(j: &Json) -> (r: Option<ExamSection>)
    ensures
        match r {
            Some(v) => spec_exam_section_from_json(j@) == Some(v@),
            None => spec_exam_section_from_json(j@) is None,
        },
{
    match j {
        Json::Obj(es) => {
            let lecture_code = match get_field_str(es, "lecture_code") {
                Some(v) => v,
                None => {
                    return None;
                },
            };
            let split = match get_field_str(es, "split") {
                Some(v) => v,
                None => {
                    return None;
                },
            };
            let location = match get_field_str(es, "location") {
                Some(v) => v,
                None => {
                    return None;
                },
            };
            Some(ExamSection { lecture_code, split, location })
        },
        _ => None,
    }
}

/// Decode every element of an array of an exam sections.
pub fn dec_exam_section_list(a: &Vec<Json>) -> (r: Option<Vec<ExamSection>>)
    ensures
        match r {
            Some(v) => spec_decode_list(json_seq_view(*a), dec_exam_section()) == Some(v.deep_view()),
            None => spec_decode_list(json_seq_view(*a), dec_exam_section()) is None,
        },
{
    let ghost f = dec_exam_section();
    let ghost av = json_seq_view(*a);
    let mut out: Vec<ExamSection> = Vec::new();
    proof {
        assert(av.skip(0) =~= av);
        assert(out.deep_view() =~= Seq::<ExamSectionView>::empty());
    }
    let mut i: usize = 0;
    while i < a.len()
        invariant
            i <= a@.len(),
            av == json_seq_view(*a),
            f == dec_exam_section(),
            av.len() == a@.len(),
            out.deep_view().len() == i as int,
            match spec_decode_list(av.skip(i as int), f) {
                Some(rest) => spec_decode_list(av, f) == Some(out.deep_view() + rest),
                None => spec_decode_list(av, f) is None,
            },
        decreases a@.len() - i,
    {
        let ghost outdv = out.deep_view();
        let x = &a[i];
        proof {
            assert(av.skip(i as int)[0] == av[i as int]);
            assert(av[i as int] == json_view(a@[i as int]));
            assert(av.skip(i as int).drop_first() =~= av.skip(i as int + 1));
        }
        match exam_section_from_json(x) {
            None => {
                proof {
                    assert(f(av.skip(i as int)[0]) is None);
                }
                return None;
            },
            Some(t) => {
                proof {
                    assert(f(av.skip(i as int)[0]) == Some(t@));
                }
                out.push(t);
                proof {
                    assert(out.deep_view() =~= outdv.push(t@));
                    if spec_decode_list(av.skip(i as int + 1), f) is Some {
                        let rest = spec_decode_list(av.skip(i as int + 1), f).unwrap();
                        assert(outdv + (seq![t@] + rest) =~= outdv.push(t@) + rest);
                    }
                }
            },
        }
        i += 1;
    }
    proof {
        assert(av.skip(i as int) =~= Seq::<JsonV>::empty());
        assert(out.deep_view() + Seq::<ExamSectionView>::empty() =~= out.deep_view());
    }
    Some(out)
}

/// Read a sequence member of an exam sections: absent means empty.
pub fn get_field_exam_section_list(es: &Vec<(String, Json)>, k: &str) -> (r: Option<Vec<ExamSection>>)
    ensures
        match r {
            Some(v) => field_list(json_pairs_view(*es), k@, dec_exam_section()) == Some(v.deep_view()),
            None => field_list(json_pairs_view(*es), k@, dec_exam_section()) is None,
        },
{
    match obj_get(es, k) {
        None => {
            let out: Vec<ExamSection> = Vec::new();
            proof {
                assert(out.deep_view() =~= Seq::<ExamSectionView>::empty());
            }
            Some(out)
        },
        Some(j) => match j {
            Json::Arr(a) => dec_exam_section_list(a),
            _ => None,
        },
    }
}

/// Decode an exam record from an object's members.
pub open spec fn spec_exam_from_obj(es: Seq<(Seq<char>, JsonV)>) -> Option<ExamView> {
    if field_str(es, "id"@).is_some() && field_str(es, "course_id"@).is_some() && field_str(es, "course_code"@).is_some() && field_str(es, "campus"@).is_some() && field_str(es, "date"@).is_some() && field_int(es, "start"@).is_some() && field_int(es, "end"@).is_some() && field_int(es, "duration"@).is_some() && field_list(es, "sections"@, dec_exam_section()).is_some() && field_str(es, "last_updated"@).is_some() {
        Some(ExamView {
            id: field_str(es, "id"@).unwrap(),
            course_id: field_str(es, "course_id"@).unwrap(),
            course_code: field_str(es, "course_code"@).unwrap(),
            campus: field_str(es, "campus"@).unwrap(),
            date: field_str(es, "date"@).unwrap(),
            start: field_int(es, "start"@).unwrap(),
            end: field_int(es, "end"@).unwrap(),
            duration: field_int(es, "duration"@).unwrap(),
            sections: field_list(es, "sections"@, dec_exam_section()).unwrap(),
            last_updated: field_str(es, "last_updated"@).unwrap(),
        })
    } else {
        None
    }
}

/// Decode an exam record: anything but an object fails.
pub open spec fn spec_exam_from_json(j: JsonV) -> Option<ExamView> {
    match j {
        JsonV::Obj(es) => spec_exam_from_obj(es),
        _ => None,
    }
}

pub open spec fn dec_exam() -> spec_fn(JsonV) -> Option<ExamView> {
    |j: JsonV| spec_exam_from_json(j)
}

/// Decode an exam record, exactly as `spec_exam_from_json` does on the model.
pub fn exam_from_json(j: &Json) -> (r: Option<Exam>)
    ensures
        match r {
            Some(v) => spec_exam_from_json(j@) == Some(v@),
            None => spec_exam_from_json(j@) is None,
        },
{
    match j {
        Json::Obj(es) => {
            let id = match get_field_str(es, "id") {
                Some(v) => v,
                None => {
                    return None;
                },
            };
            let course_id = match get_field_str(es, "course_id") {
                Some(v) => v,
                None => {
                    return None;
                },
            };
            let course_code = match get_field_str(es, "course_code") {
                Some(v) => v,
                None => {
                    return None;
                },
            };
            let campus = match get_field_str(es, "campus") {
                Some(v) => v,
                None => {
                    return None;
                },
            };
            let date = match get_field_str(es, "date") {
                Some(v) => v,
                None => {
                    return None;
                },
            };
            let start = match get_field_int(es, "start") {
                Some(v) => v,
                None => {
                    return None;
                },
            };
            let end = match get_field_int(es, "end") {
                Some(v) => v,
                None => {
                    return None;
                },
            };
            let duration = match get_field_int(es, "duration") {
                Some(v) => v,
                None => {
                    return None;
                },
            };
            let sections = match get_field_exam_section_list(es, "sections") {
                Some(v) => v,
                None => {
                    return None;
                },
            };
            let last_updated = match get_field_str(es, "last_updated") {
                Some(v) => v,
                None => {
                    return None;
                },
            };
            Some(Exam { id, course_id, course_code, campus, date, start, end, duration, sections, last_updated })
        },
        _ => None,
    }
}

/// Decode every element of an array of an exam records.
pub fn dec_exam_list(a: &Vec<Json>) -> (r: Option<Vec<Exam>>)
    ensures
        match r {
            Some(v) => spec_decode_list(json_seq_view(*a), dec_exam()) == Some(v.deep_view()),
            None => spec_decode_list(json_seq_view(*a), dec_exam()) is None,
        },
{
    let ghost f = dec_exam();
    let ghost av = json_seq_view(*a);
    let mut out: Vec<Exam> = Vec::new();
    proof {
        assert(av.skip(0) =~= av);
        assert(out.deep_view() =~= Seq::<ExamView>::empty());
    }
    let mut i: usize = 0;
    while i < a.len()
        invariant
            i <= a@.len(),
            av == json_seq_view(*a),
            f == dec_exam(),
            av.len() == a@.len(),
            out.deep_view().len() == i as int,
            match spec_decode_list(av.skip(i as int), f) {
                Some(rest) => spec_decode_list(av, f) == Some(out.deep_view() + rest),
                None => spec_decode_list(av, f) is None,
            },
        decreases a@.len() - i,
    {
        let ghost outdv = out.deep_view();
        let x = &a[i];
        proof {
            assert(av.skip(i as int)[0] == av[i as int]);
            assert(av[i as int] == json_view(a@[i as int]));
            assert(av.skip(i as int).drop_first() =~= av.skip(i as int + 1));
        }
        match exam_from_json(x) {
            None => {
                proof {
                    assert(f(av.skip(i as int)[0]) is None);
                }
                return None;
            },
            Some(t) => {
                proof {
                    assert(f(av.skip(i as int)[0]) == Some(t@));
                }
                out.push(t);
                proof {
                    assert(out.deep_view() =~= outdv.push(t@));
                    if spec_decode_list(av.skip(i as int + 1), f) is Some {
                        let rest = spec_decode_list(av.skip(i as int + 1), f).unwrap();
                        assert(outdv + (seq![t@] + rest) =~= outdv.push(t@) + rest);
                    }
                }
            },
        }
        i += 1;
    }
    proof {
        assert(av.skip(i as int) =~= Seq::<JsonV>::empty());
        assert(out.deep_view() + Seq::<ExamView>::empty() =~= out.deep_view());
    }
    Some(out)
}

/// Decode an evaluated lecture from an object's members.
pub open spec fn spec_eval_lecture_from_obj(es: Seq<(Seq<char>, JsonV)>) -> Option<EvalLectureView> {
    if field_str(es, "lecture_code"@).is_some() && field_str(es, "firstname"@).is_some() && field_str(es, "lastname"@).is_some() && field_num(es, "s1"@).is_some() && field_num(es, "s2"@).is_some() && field_num(es, "s3"@).is_some() && field_num(es, "s4"@).is_some() && field_num(es, "s5"@).is_some() && field_num(es, "s6"@).is_some() && field_int(es, "invited"@).is_some() && field_int(es, "responses"@).is_some() {
        Some(EvalLectureView {
            lecture_code: field_str(es, "lecture_code"@).unwrap(),
            firstname: field_str(es, "firstname"@).unwrap(),
            lastname: field_str(es, "lastname"@).unwrap(),
            s1: field_num(es, "s1"@).unwrap(),
            s2: field_num(es, "s2"@).unwrap(),
            s3: field_num(es, "s3"@).unwrap(),
            s4: field_num(es, "s4"@).unwrap(),
            s5: field_num(es, "s5"@).unwrap(),
            s6: field_num(es, "s6"@).unwrap(),
            invited: field_int(es, "invited"@).unwrap(),
            responses: field_int(es, "responses"@).unwrap(),
        })
    } else {
        None
    }
}

/// Decode an evaluated lecture: anything but an object fails.
pub open spec fn spec_eval_lecture_from_json(j: JsonV) -> Option<EvalLectureView> {
    match j {
        JsonV::Obj(es) => spec_eval_lecture_from_obj(es),
        _ => None,
    }
}

pub open spec fn dec_eval_lecture() -> spec_fn(JsonV) -> Option<EvalLectureView> {
    |j: JsonV| spec_eval_lecture_from_json(j)
}

/// Decode an evaluated lecture, exactly as `spec_eval_lecture_from_json` does on the model.
pub fn eval_lecture_from_json(j: &Json) -> (r: Option<EvalLecture>)
    ensures
        match r {
            Some(v) => spec_eval_lecture_from_json(j@) == Some(v@),
            None => spec_eval_lecture_from_json(j@) is None,
        },
{
    match j {
        Json::Obj(es) => {
            let lecture_code = match get_field_str(es, "lecture_code") {
                Some(v) => v,
                None => {
                    return None;
                },
            };
            let firstname = match get_field_str(es, "firstname") {
                Some(v) => v,
                None => {
                    return None;
                },
            };
            let lastname = match get_field_str(es, "lastname") {
                Some(v) => v,
                None => {
                    return None;
                },
            };
            let s1 = match get_field_number(es, "s1") {
                Some(v) => v,
                None => {
                    return None;
                },
            };
            let s2 = match get_field_number(es, "s2") {
                Some(v) => v,
                None => {
                    return None;
                },
            };
            let s3 = match get_field_number(es, "s3") {
                Some(v) => v,
                None => {
                    return None;
                },
            };
            let s4 = match get_field_number(es, "s4") {
                Some(v) => v,
                None => {
                    return None;
                },
            };
            let s5 = match get_field_number(es, "s5") {
                Some(v) => v,
                None => {
                    return None;
                },
            };
            let s6 = match get_field_number(es, "s6") {
                Some(v) => v,
                None => {
                    return None;
                },
            };
            let invited = match get_field_int(es, "invited") {
                Some(v) => v,
                None => {
                    return None;
                },
            };
            let responses = match get_field_int(es, "responses") {
                Some(v) => v,
                None => {
                    return None;
                },
            };
            Some(EvalLecture { lecture_code, firstname, lastname, s1, s2, s3, s4, s5, s6, invited, responses })
        },
        _ => None,
    }
}

/// Decode every element of an array of an evaluated lectures.
pub fn dec_eval_lecture_list(a: &Vec<Json>) -> (r: Option<Vec<EvalLecture>>)
    ensures
        match r {
            Some(v) => spec_decode_list(json_seq_view(*a), dec_eval_lecture()) == Some(v.deep_view()),
            None => spec_decode_list(json_seq_view(*a), dec_eval_lecture()) is None,
        },
{
    let ghost f = dec_eval_lecture();
    let ghost av = json_seq_view(*a);
    let mut out: Vec<EvalLecture> = Vec::new();
    proof {
        assert(av.skip(0) =~= av);
        assert(out.deep_view() =~= Seq::<EvalLectureView>::empty());
    }
    let mut i: usize = 0;
    while i < a.len()
        invariant
            i <= a@.len(),
            av == json_seq_view(*a),
            f == dec_eval_lecture(),
            av.len() == a@.len(),
            out.deep_view().len() == i as int,
            match spec_decode_list(av.skip(i as int), f) {
                Some(rest) => spec_decode_list(av, f) == Some(out.deep_view() + rest),
                None => spec_decode_list(av, f) is None,
            },
        decreases a@.len() - i,
    {
        let ghost outdv = out.deep_view();
        let x = &a[i];
        proof {
            assert(av.skip(i as int)[0] == av[i as int]);
            assert(av[i as int] == json_view(a@[i as int]));
            assert(av.skip(i as int).drop_first() =~= av.skip(i as int + 1));
        }
        match eval_lecture_from_json(x) {
            None => {
                proof {
                    assert(f(av.skip(i as int)[0]) is None);
                }
                return None;
            },
            Some(t) => {
                proof {
                    assert(f(av.skip(i as int)[0]) == Some(t@));
                }
                out.push(t);
                proof {
                    assert(out.deep_view() =~= outdv.push(t@));
                    if spec_decode_list(av.skip(i as int + 1), f) is Some {
                        let rest = spec_decode_list(av.skip(i as int + 1), f).unwrap();
                        assert(outdv + (seq![t@] + rest) =~= outdv.push(t@) + rest);
                    }
                }
            },
        }
        i += 1;
    }
    proof {
        assert(av.skip(i as int) =~= Seq::<JsonV>::empty());
        assert(out.deep_view() + Seq::<EvalLectureView>::empty() =~= out.deep_view());
    }
    Some(out)
}

/// Read a sequence member of an evaluated lectures: absent means empty.
pub fn get_field_eval_lecture_list(es: &Vec<(String, Json)>, k: &str) -> (r: Option<Vec<EvalLecture>>)
    ensures
        match r {
            Some(v) => field_list(json_pairs_view(*es), k@, dec_eval_lecture()) == Some(v.deep_view()),
            None => field_list(json_pairs_view(*es), k@, dec_eval_lecture()) is None,
        },
{
    match obj_get(es, k) {
        None => {
            let out: Vec<EvalLecture> = Vec::new();
            proof {
                assert(out.deep_view() =~= Seq::<EvalLectureView>::empty());
            }
            Some(out)
        },
        Some(j) => match j {
            Json::Arr(a) => dec_eval_lecture_list(a),
            _ => None,
        },
    }
}

/// Decode an evaluation term from an object's members.
pub open spec fn spec_eval_term_from_obj(es: Seq<(Seq<char>, JsonV)>) -> Option<EvalTermView> {
    if field_str(es, "term"@).is_some() && field_list(es, "lectures"@, dec_eval_lecture()).is_some() {
        Some(EvalTermView {
            term: field_str(es, "term"@).unwrap(),
            lectures: field_list(es, "lectures"@, dec_eval_lecture()).unwrap(),
        })
    } else {
        None
    }
}

/// Decode an evaluation term: anything but an object fails.
pub open spec fn spec_eval_term_from_json(j: JsonV) -> Option<EvalTermView> {
    match j {
        JsonV::Obj(es) => spec_eval_term_from_obj(es),
        _ => None,
    }
}

pub open spec fn dec_eval_term() -> spec_fn(JsonV) -> Option<EvalTermView> {
    |j: JsonV| spec_eval_term_from_json(j)
}

/// Decode an evaluation term, exactly as `spec_eval_term_from_json` does on the model.
pub fn eval_term_from_json(j: &Json) -> (r: Option<EvalTerm>)
    ensures
        match r {
            Some(v) => spec_eval_term_from_json(j@) == Some(v@),
            None => spec_eval_term_from_json(j@) is None,
        },
{
    match j {
        Json::Obj(es) => {
            let term = match get_field_str(es, "term") {
                Some(v) => v,
                None => {
                    return None;
                },
            };
            let lectures = match get_field_eval_lecture_list(es, "lectures") {
                Some(v) => v,
                None => {
                    return None;
                },
            };
            Some(EvalTerm { term, lectures })
        },
        _ => None,
    }
}

/// Decode every element of an array of an evaluation terms.
pub fn dec_eval_term_list(a: &Vec<Json>) -> (r: Option<Vec<EvalTerm>>)
    ensures
        match r {
            Some(v) => spec_decode_list(json_seq_view(*a), dec_eval_term()) == Some(v.deep_view()),
            None => spec_decode_list(json_seq_view(*a), dec_eval_term()) is None,
        },
{
    let ghost f = dec_eval_term();
    let ghost av = json_seq_view(*a);
    let mut out: Vec<EvalTerm> = Vec::new();
    proof {
        assert(av.skip(0) =~= av);
        assert(out.deep_view() =~= Seq::<EvalTermView>::empty());
    }
    let mut i: usize = 0;
    while i < a.len()
        invariant
            i <= a@.len(),
            av == json_seq_view(*a),
            f == dec_eval_term(),
            av.len() == a@.len(),
            out.deep_view().len() == i as int,
            match spec_decode_list(av.skip(i as int), f) {
                Some(rest) => spec_decode_list(av, f) == Some(out.deep_view() + rest),
                None => spec_decode_list(av, f) is None,
            },
        decreases a@.len() - i,
    {
        let ghost outdv = out.deep_view();
        let x = &a[i];
        proof {
            assert(av.skip(i as int)[0] == av[i as int]);
            assert(av[i as int] == json_view(a@[i as int]));
            assert(av.skip(i as int).drop_first() =~= av.skip(i as int + 1));
        }
        match eval_term_from_json(x) {
            None => {
                proof {
                    assert(f(av.skip(i as int)[0]) is None);
                }
                return None;
            },
            Some(t) => {
                proof {
                    assert(f(av.skip(i as int)[0]) == Some(t@));
                }
                out.push(t);
                proof {
                    assert(out.deep_view() =~= outdv.push(t@));
                    if spec_decode_list(av.skip(i as int + 1), f) is Some {
                        let rest = spec_decode_list(av.skip(i as int + 1), f).unwrap();
                        assert(outdv + (seq![t@] + rest) =~= outdv.push(t@) + rest);
                    }
                }
            },
        }
        i += 1;
    }
    proof {
        assert(av.skip(i as int) =~= Seq::<JsonV>::empty());
        assert(out.deep_view() + Seq::<EvalTermView>::empty() =~= out.deep_view());
    }
    Some(out)
}

/// Read a sequence member of an evaluation terms: absent means empty.
pub fn get_field_eval_term_list(es: &Vec<(String, Json)>, k: &str) -> (r: Option<Vec<EvalTerm>>)
    ensures
        match r {
            Some(v) => field_list(json_pairs_view(*es), k@, dec_eval_term()) == Some(v.deep_view()),
            None => field_list(json_pairs_view(*es), k@, dec_eval_term()) is None,
        },
{
    match obj_get(es, k) {
        None => {
            let out: Vec<EvalTerm> = Vec::new();
            proof {
                assert(out.deep_view() =~= Seq::<EvalTermView>::empty());
            }
            Some(out)
        },
        Some(j) => match j {
            Json::Arr(a) => dec_eval_term_list(a),
            _ => None,
        },
    }
}

/// Decode a course evaluation record from an object's members.
pub open spec fn spec_eval_from_obj(es: Seq<(Seq<char>, JsonV)>) -> Option<EvalView> {
    if field_str(es, "id"@).is_some() && field_str(es, "name"@).is_some() && field_str(es, "campus"@).is_some() && field_list(es, "terms"@, dec_eval_term()).is_some() && field_str(es, "last_updated"@).is_some() {
        Some(EvalView {
            id: field_str(es, "id"@).unwrap(),
            name: field_str(es, "name"@).unwrap(),
            campus: field_str(es, "campus"@).unwrap(),
            terms: field_list(es, "terms"@, dec_eval_term()).unwrap(),
            last_updated: field_str(es, "last_updated"@).unwrap(),
        })
    } else {
        None
    }
}

/// Decode a course evaluation record: anything but an object fails.
pub open spec fn spec_eval_from_json(j: JsonV) -> Option<EvalView> {
    match j {
        JsonV::Obj(es) => spec_eval_from_obj(es),
        _ => None,
    }
}

pub open spec fn dec_eval() -> spec_fn(JsonV) -> Option<EvalView> {
    |j: JsonV| spec_eval_from_json(j)
}

/// Decode a course evaluation record, exactly as `spec_eval_from_json` does on the model.
pub fn eval_from_json(j: &Json) -> (r: Option<Eval>)
    ensures
        match r {
            Some(v) => spec_eval_from_json(j@) == Some(v@),
            None => spec_eval_from_json(j@) is None,
        },
{
    match j {
        Json::Obj(es) => {
            let id = match get_field_str(es, "id") {
                Some(v) => v,
                None => {
                    return None;
                },
            };
            let name = match get_field_str(es, "name") {
                Some(v) => v,
                None => {
                    return None;
                },
            };
            let campus = match get_field_str(es, "campus") {
                Some(v) => v,
                None => {
                    return None;
                },
            };
            let terms = match get_field_eval_term_list(es, "terms") {
                Some(v) => v,
                None => {
                    return None;
                },
            };
            let last_updated = match get_field_str(es, "last_updated") {
                Some(v) => v,
                None => {
                    return None;
                },
            };
            Some(Eval { id, name, campus, terms, last_updated })
        },
        _ => None,
    }
}

/// Decode every element of an array of a course evaluation records.
pub fn dec_eval_list(a: &Vec<Json>) -> (r: Option<Vec<Eval>>)
    ensures
        match r {
            Some(v) => spec_decode_list(json_seq_view(*a), dec_eval()) == Some(v.deep_view()),
            None => spec_decode_list(json_seq_view(*a), dec_eval()) is None,
        },
{
    let ghost f = dec_eval();
    let ghost av = json_seq_view(*a);
    let mut out: Vec<Eval> = Vec::new();
    proof {
        assert(av.skip(0) =~= av);
        assert(out.deep_view() =~= Seq::<EvalView>::empty());
    }
    let mut i: usize = 0;
    while i < a.len()
        invariant
            i <= a@.len(),
            av == json_seq_view(*a),
            f == dec_eval(),
            av.len() == a@.len(),
            out.deep_view().len() == i as int,
            match spec_decode_list(av.skip(i as int), f) {
                Some(rest) => spec_decode_list(av, f) == Some(out.deep_view() + rest),
                None => spec_decode_list(av, f) is None,
            },
        decreases a@.len() - i,
    {
        let ghost outdv = out.deep_view();
        let x = &a[i];
        proof {
            assert(av.skip(i as int)[0] == av[i as int]);
            assert(av[i as int] == json_view(a@[i as int]));
            assert(av.skip(i as int).drop_first() =~= av.skip(i as int + 1));
        }
        match eval_from_json(x) {
            None => {
                proof {
                    assert(f(av.skip(i as int)[0]) is None);
                }
                return None;
            },
            Some(t) => {
                proof {
                    assert(f(av.skip(i as int)[0]) == Some(t@));
                }
                out.push(t);
                proof {
                    assert(out.deep_view() =~= outdv.push(t@));
                    if spec_decode_list(av.skip(i as int + 1), f) is Some {
                        let rest = spec_decode_list(av.skip(i as int + 1), f).unwrap();
                        assert(outdv + (seq![t@] + rest) =~= outdv.push(t@) + rest);
                    }
                }
            },
        }
        i += 1;
    }
    proof {
        assert(av.skip(i as int) =~= Seq::<JsonV>::empty());
        assert(out.deep_view() + Seq::<EvalView>::empty() =~= out.deep_view());
    }
    Some(out)
}

/// Decode one day's schedule from an object's members.
pub open spec fn spec_day_hours_from_obj(es: Seq<(Seq<char>, JsonV)>) -> Option<DayHoursView> {
    if field_bool(es, "closed"@).is_some() && field_int(es, "open"@).is_some() && field_int(es, "close"@).is_some() {
        Some(DayHoursView {
            closed: field_bool(es, "closed"@).unwrap(),
            open: field_int(es, "open"@).unwrap(),
            close: field_int(es, "close"@).unwrap(),
        })
    } else {
        None
    }
}

/// Decode one day's schedule: anything but an object fails.
pub open spec fn spec_day_hours_from_json(j: JsonV) -> Option<DayHoursView> {
    match j {
        JsonV::Obj(es) => spec_day_hours_from_obj(es),
        _ => None,
    }
}

pub open spec fn dec_day_hours() -> spec_fn(JsonV) -> Option<DayHoursView> {
    |j: JsonV| spec_day_hours_from_json(j)
}

/// Decode one day's schedule, exactly as `spec_day_hours_from_json` does on the model.
pub fn day_hours_from_json(j: &Json) -> (r: Option<DayHours>)
    ensures
        match r {
            Some(v) => spec_day_hours_from_json(j@) == Some(v@),
            None => spec_day_hours_from_json(j@) is None,
        },
{
    match j {
        Json::Obj(es) => {
            let closed = match get_field_bool(es, "closed") {
                Some(v) => v,
                None => {
                    return None;
                },
            };
            let open = match get_field_int(es, "open") {
                Some(v) => v,
                None => {
                    return None;
                },
            };
            let close = match get_field_int(es, "close") {
                Some(v) => v,
                None => {
                    return None;
                },
            };
            Some(DayHours { closed, open, close })
        },
        _ => None,
    }
}

/// Read an optional one day's schedule member, as `field_rec` does on the model.
pub fn get_field_day_hours(es: &Vec<(String, Json)>, k: &str) -> (r: Option<Option<DayHours>>)
    ensures
        match r {
            Some(v) => field_rec(json_pairs_view(*es), k@, dec_day_hours()) == Some(v.deep_view()),
            None => field_rec(json_pairs_view(*es), k@, dec_day_hours()) is None,
        },
{
    match obj_get(es, k) {
        None => Some(None),
        Some(j) => match j {
            Json::Null => Some(None),
            other => match day_hours_from_json(other) {
                Some(v) => Some(Some(v)),
                None => None,
            },
        },
    }
}

/// Decode weekly opening hours from an object's members.
pub open spec fn spec_hours_from_obj(es: Seq<(Seq<char>, JsonV)>) -> Option<HoursView> {
    if field_rec(es, "sunday"@, dec_day_hours()).is_some() && field_rec(es, "monday"@, dec_day_hours()).is_some() && field_rec(es, "tuesday"@, dec_day_hours()).is_some() && field_rec(es, "wednesday"@, dec_day_hours()).is_some() && field_rec(es, "thursday"@, dec_day_hours()).is_some() && field_rec(es, "friday"@, dec_day_hours()).is_some() && field_rec(es, "saturday"@, dec_day_hours()).is_some() {
        Some(HoursView {
            sunday: field_rec(es, "sunday"@, dec_day_hours()).unwrap(),
            monday: field_rec(es, "monday"@, dec_day_hours()).unwrap(),
            tuesday: field_rec(es, "tuesday"@, dec_day_hours()).unwrap(),
            wednesday: field_rec(es, "wednesday"@, dec_day_hours()).unwrap(),
            thursday: field_rec(es, "thursday"@, dec_day_hours()).unwrap(),
            friday: field_rec(es, "friday"@, dec_day_hours()).unwrap(),
            saturday: field_rec(es, "saturday"@, dec_day_hours()).unwrap(),
        })
    } else {
        None
    }
}

/// Decode weekly opening hours: anything but an object fails.
pub open spec fn spec_hours_from_json(j: JsonV) -> Option<HoursView> {
    match j {
        JsonV::Obj(es) => spec_hours_from_obj(es),
        _ => None,
    }
}

pub open spec fn dec_hours() -> spec_fn(JsonV) -> Option<HoursView> {
    |j: JsonV| spec_hours_from_json(j)
}

/// Decode weekly opening hours, exactly as `spec_hours_from_json` does on the model.
pub fn hours_from_json(j: &Json) -> (r: Option<Hours>)
    ensures
        match r {
            Some(v) => spec_hours_from_json(j@) == Some(v@),
            None => spec_hours_from_json(j@) is None,
        },
{
    match j {
        Json::Obj(es) => {
            let sunday = match get_field_day_hours(es, "sunday") {
                Some(v) => v,
                None => {
                    return None;
                },
            };
            let monday = match get_field_day_hours(es, "monday") {
                Some(v) => v,
                None => {
                    return None;
                },
            };
            let tuesday = match get_field_day_hours(es, "tuesday") {
                Some(v) => v,
                None => {
                    return None;
                },
            };
            let wednesday = match get_field_day_hours(es, "wednesday") {
                Some(v) => v,
                None => {
                    return None;
                },
            };
            let thursday = match get_field_day_hours(es, "thursday") {
                Some(v) => v,
                None => {
                    return None;
                },
            };
            let friday = match get_field_day_hours(es, "friday") {
                Some(v) => v,
                None => {
                    return None;
                },
            };
            let saturday = match get_field_day_hours(es, "saturday") {
                Some(v) => v,
                None => {
                    return None;
                },
            };
            Some(Hours { sunday, monday, tuesday, wednesday, thursday, friday, saturday })
        },
        _ => None,
    }
}

/// Read an optional weekly opening hours member, as `field_rec` does on the model.
pub fn get_field_hours(es: &Vec<(String, Json)>, k: &str) -> (r: Option<Option<Hours>>)
    ensures
        match r {
            Some(v) => field_rec(json_pairs_view(*es), k@, dec_hours()) == Some(v.deep_view()),
            None => field_rec(json_pairs_view(*es), k@, dec_hours()) is None,
        },
{
    match obj_get(es, k) {
        None => Some(None),
        Some(j) => match j {
            Json::Null => Some(None),
            other => match hours_from_json(other) {
                Some(v) => Some(Some(v)),
                None => None,
            },
        },
    }
}

/// Decode a coordinate pair from an object's members.
pub open spec fn spec_coordinates_from_obj(es: Seq<(Seq<char>, JsonV)>) -> Option<CoordinatesView> {
    if field_num(es, "latitude"@).is_some() && field_num(es, "longitude"@).is_some() {
        Some(CoordinatesView {
            latitude: field_num(es, "latitude"@).unwrap(),
            longitude: field_num(es, "longitude"@).unwrap(),
        })
    } else {
        None
    }
}

/// Decode a coordinate pair: anything but an object fails.
pub open spec fn spec_coordinates_from_json(j: JsonV) -> Option<CoordinatesView> {
    match j {
        JsonV::Obj(es) => spec_coordinates_from_obj(es),
        _ => None,
    }
}

pub open spec fn dec_coordinates() -> spec_fn(JsonV) -> Option<CoordinatesView> {
    |j: JsonV| spec_coordinates_from_json(j)
}

/// Decode a coordinate pair, exactly as `spec_coordinates_from_json` does on the model.
pub fn coordinates_from_json(j: &Json) -> (r: Option<Coordinates>)
    ensures
        match r {
            Some(v) => spec_coordinates_from_json(j@) == Some(v@),
            None => spec_coordinates_from_json(j@) is None,
        },
{
    match j {
        Json::Obj(es) => {
            let latitude = match get_field_number(es, "latitude") {
                Some(v) => v,
                None => {
                    return None;
                },
            };
            let longitude = match get_field_number(es, "longitude") {
                Some(v) => v,
                None => {
                    return None;
                },
            };
            Some(Coordinates { latitude, longitude })
        },
        _ => None,
    }
}

/// Read an optional a coordinate pair member, as `field_rec` does on the model.
pub fn get_field_coordinates(es: &Vec<(String, Json)>, k: &str) -> (r: Option<Option<Coordinates>>)
    ensures
        match r {
            Some(v) => field_rec(json_pairs_view(*es), k@, dec_coordinates()) == Some(v.deep_view()),
            None => field_rec(json_pairs_view(*es), k@, dec_coordinates()) is None,
        },
{
    match obj_get(es, k) {
        None => Some(None),
        Some(j) => match j {
            Json::Null => Some(None),
            other => match coordinates_from_json(other) {
                Some(v) => Some(Some(v)),
                None => None,
            },
        },
    }
}

/// Decode a food vendor record from an object's members.
pub open spec fn spec_food_from_obj(es: Seq<(Seq<char>, JsonV)>) -> Option<FoodView> {
    if field_str(es, "id"@).is_some() && field_str(es, "name"@).is_some() && field_str(es, "description"@).is_some() && field_str(es, "tags"@).is_some() && field_str(es, "campus"@).is_some() && field_str(es, "address"@).is_some() && field_rec(es, "coordinates"@, dec_coordinates()).is_some() && field_rec(es, "hours"@, dec_hours()).is_some() && field_str(es, "image"@).is_some() && field_str(es, "url"@).is_some() && field_str(es, "twitter"@).is_some() && field_str(es, "facebook"@).is_some() && field_list(es, "attributes"@, dec_string()).is_some() && field_str(es, "last_updated"@).is_some() {
        Some(FoodView {
            id: field_str(es, "id"@).unwrap(),
            name: field_str(es, "name"@).unwrap(),
            description: field_str(es, "description"@).unwrap(),
            tags: field_str(es, "tags"@).unwrap(),
            campus: field_str(es, "campus"@).unwrap(),
            address: field_str(es, "address"@).unwrap(),
            coordinates: field_rec(es, "coordinates"@, dec_coordinates()).unwrap(),
            hours: field_rec(es, "hours"@, dec_hours()).unwrap(),
            image: field_str(es, "image"@).unwrap(),
            url: field_str(es, "url"@).unwrap(),
            twitter: field_str(es, "twitter"@).unwrap(),
            facebook: field_str(es, "facebook"@).unwrap(),
            attributes: field_list(es, "attributes"@, dec_string()).unwrap(),
            last_updated: field_str(es, "last_updated"@).unwrap(),
        })
    } else {
        None
    }
}

/// Decode a food vendor record: anything but an object fails.
pub open spec fn spec_food_from_json(j: JsonV) -> Option<FoodView> {
    match j {
        JsonV::Obj(es) => spec_food_from_obj(es),
        _ => None,
    }
}

pub open spec fn dec_food() -> spec_fn(JsonV) -> Option<FoodView> {
    |j: JsonV| spec_food_from_json(j)
}

/// Decode a food vendor record, exactly as `spec_food_from_json` does on the model.
pub fn food_from_json(j: &Json) -> (r: Option<Food>)
    ensures
        match r {
            Some(v) => spec_food_from_json(j@) == Some(v@),
            None => spec_food_from_json(j@) is None,
        },
{
    match j {
        Json::Obj(es) => {
            let id = match get_field_str(es, "id") {
                Some(v) => v,
                None => {
                    return None;
                },
            };
            let name = match get_field_str(es, "name") {
                Some(v) => v,
                None => {
                    return None;
                },
            };
            let description = match get_field_str(es, "description") {
                Some(v) => v,
                None => {
                    return None;
                },
            };
            let tags = match get_field_str(es, "tags") {
                Some(v) => v,
                None => {
                    return None;
                },
            };
            let campus = match get_field_str(es, "campus") {
                Some(v) => v,
                None => {
                    return None;
                },
            };
            let address = match get_field_str(es, "address") {
                Some(v) => v,
                None => {
                    return None;
                },
            };
            let coordinates = match get_field_coordinates(es, "coordinates") {
                Some(v) => v,
                None => {
                    return None;
                },
            };
            let hours = match get_field_hours(es, "hours") {
                Some(v) => v,
                None => {
                    return None;
                },
            };
            let image = match get_field_str(es, "image") {
                Some(v) => v,
                None => {
                    return None;
                },
            };
            let url = match get_field_str(es, "url") {
                Some(v) => v,
                None => {
                    return None;
                },
            };
            let twitter = match get_field_str(es, "twitter") {
                Some(v) => v,
                None => {
                    return None;
                },
            };
            let facebook = match get_field_str(es, "facebook") {
                Some(v) => v,
                None => {
                    return None;
                },
            };
            let attributes = match get_field_string_list(es, "attributes") {
                Some(v) => v,
                None => {
                    return None;
                },
            };
            let last_updated = match get_field_str(es, "last_updated") {
                Some(v) => v,
                None => {
                    return None;
                },
            };
            Some(Food { id, name, description, tags, campus, address, coordinates, hours, image, url, twitter, facebook, attributes, last_updated })
        },
        _ => None,
    }
}

/// Decode every element of an array of a food vendor records.
pub fn dec_food_list(a: &Vec<Json>) -> (r: Option<Vec<Food>>)
    ensures
        match r {
            Some(v) => spec_decode_list(json_seq_view(*a), dec_food()) == Some(v.deep_view()),
            None => spec_decode_list(json_seq_view(*a), dec_food()) is None,
        },
{
    let ghost f = dec_food();
    let ghost av = json_seq_view(*a);
    let mut out: Vec<Food> = Vec::new();
    proof {
        assert(av.skip(0) =~= av);
        assert(out.deep_view() =~= Seq::<FoodView>::empty());
    }
    let mut i: usize = 0;
    while i < a.len()
        invariant
            i <= a@.len(),
            av == json_seq_view(*a),
            f == dec_food(),
            av.len() == a@.len(),
            out.deep_view().len() == i as int,
            match spec_decode_list(av.skip(i as int), f) {
                Some(rest) => spec_decode_list(av, f) == Some(out.deep_view() + rest),
                None => spec_decode_list(av, f) is None,
            },
        decreases a@.len() - i,
    {
        let ghost outdv = out.deep_view();
        let x = &a[i];
        proof {
            assert(av.skip(i as int)[0] == av[i as int]);
            assert(av[i as int] == json_view(a@[i as int]));
            assert(av.skip(i as int).drop_first() =~= av.skip(i as int + 1));
        }
        match food_from_json(x) {
            None => {
                proof {
                    assert(f(av.skip(i as int)[0]) is None);
                }
                return None;
            },
            Some(t) => {
                proof {
                    assert(f(av.skip(i as int)[0]) == Some(t@));
                }
                out.push(t);
                proof {
                    assert(out.deep_view() =~= outdv.push(t@));
                    if spec_decode_list(av.skip(i as int + 1), f) is Some {
                        let rest = spec_decode_list(av.skip(i as int + 1), f).unwrap();
                        assert(outdv + (seq![t@] + rest) =~= outdv.push(t@) + rest);
                    }
                }
            },
        }
        i += 1;
    }
    proof {
        assert(av.skip(i as int) =~= Seq::<JsonV>::empty());
        assert(out.deep_view() + Seq::<FoodView>::empty() =~= out.deep_view());
    }
    Some(out)
}

/// Decode a service record from an object's members.
pub open spec fn spec_service_from_obj(es: Seq<(Seq<char>, JsonV)>) -> Option<ServiceView> {
    if field_str(es, "id"@).is_some() && field_str(es, "name"@).is_some() && field_str(es, "alias"@).is_some() && field_str(es, "building_id"@).is_some() && field_str(es, "description"@).is_some() && field_str(es, "campus"@).is_some() && field_str(es, "address"@).is_some() && field_str(es, "image"@).is_some() && field_rec(es, "coordinates"@, dec_coordinates()).is_some() && field_str(es, "tags"@).is_some() && field_list(es, "attributes"@, dec_string()).is_some() && field_str(es, "last_updated"@).is_some() {
        Some(ServiceView {
            id: field_str(es, "id"@).unwrap(),
            name: field_str(es, "name"@).unwrap(),
            alias: field_str(es, "alias"@).unwrap(),
            building_id: field_str(es, "building_id"@).unwrap(),
            description: field_str(es, "description"@).unwrap(),
            campus: field_str(es, "campus"@).unwrap(),
            address: field_str(es, "address"@).unwrap(),
            image: field_str(es, "image"@).unwrap(),
            coordinates: field_rec(es, "coordinates"@, dec_coordinates()).unwrap(),
            tags: field_str(es, "tags"@).unwrap(),
            attributes: field_list(es, "attributes"@, dec_string()).unwrap(),
            last_updated: field_str(es, "last_updated"@).unwrap(),
        })
    } else {
        None
    }
}

/// Decode a service record: anything but an object fails.
pub open spec fn spec_service_from_json(j: JsonV) -> Option<ServiceView> {
    match j {
        JsonV::Obj(es) => spec_service_from_obj(es),
        _ => None,
    }
}

pub open spec fn dec_service() -> spec_fn(JsonV) -> Option<ServiceView> {
    |j: JsonV| spec_service_from_json(j)
}

/// Decode a service record, exactly as `spec_service_from_json` does on the model.
pub fn service_from_json(j: &Json) -> (r: Option<Service>)
    ensures
        match r {
            Some(v) => spec_service_from_json(j@) == Some(v@),
            None => spec_service_from_json(j@) is None,
        },
{
    match j {
        Json::Obj(es) => {
            let id = match get_field_str(es, "id") {
                Some(v) => v,
                None => {
                    return None;
                },
            };
            let name = match get_field_str(es, "name") {
                Some(v) => v,
                None => {
                    return None;
                },
            };
            let alias = match get_field_str(es, "alias") {
                Some(v) => v,
                None => {
                    return None;
                },
            };
            let building_id = match get_field_str(es, "building_id") {
                Some(v) => v,
                None => {
                    return None;
                },
            };
            let description = match get_field_str(es, "description") {
                Some(v) => v,
                None => {
                    return None;
                },
            };
            let campus = match get_field_str(es, "campus") {
                Some(v) => v,
                None => {
                    return None;
                },
            };
            let address = match get_field_str(es, "address") {
                Some(v) => v,
                None => {
                    return None;
                },
            };
            let image = match get_field_str(es, "image") {
                Some(v) => v,
                None => {
                    return None;
                },
            };
            let coordinates = match get_field_coordinates(es, "coordinates") {
                Some(v) => v,
                None => {
                    return None;
                },
            };
            let tags = match get_field_str(es, "tags") {
                Some(v) => v,
                None => {
                    return None;
                },
            };
            let attributes = match get_field_string_list(es, "attributes") {
                Some(v) => v,
                None => {
                    return None;
                },
            };
            let last_updated = match get_field_str(es, "last_updated") {
                Some(v) => v,
                None => {
                    return None;
                },
            };
            Some(Service { id, name, alias, building_id, description, campus, address, image, coordinates, tags, attributes, last_updated })
        },
        _ => None,
    }
}

/// Decode every element of an array of a service records.
pub fn dec_service_list(a: &Vec<Json>) -> (r: Option<Vec<Service>>)
    ensures
        match r {
            Some(v) => spec_decode_list(json_seq_view(*a), dec_service()) == Some(v.deep_view()),
            None => spec_decode_list(json_seq_view(*a), dec_service()) is None,
        },
{
    let ghost f = dec_service();
    let ghost av = json_seq_view(*a);
    let mut out: Vec<Service> = Vec::new();
    proof {
        assert(av.skip(0) =~= av);
        assert(out.deep_view() =~= Seq::<ServiceView>::empty());
    }
    let mut i: usize = 0;
    while i < a.len()
        invariant
            i <= a@.len(),
            av == json_seq_view(*a),
            f == dec_service(),
            av.len() == a@.len(),
            out.deep_view().len() == i as int,
            match spec_decode_list(av.skip(i as int), f) {
                Some(rest) => spec_decode_list(av, f) == Some(out.deep_view() + rest),
                None => spec_decode_list(av, f) is None,
            },
        decreases a@.len() - i,
    {
        let ghost outdv = out.deep_view();
        let x = &a[i];
        proof {
            assert(av.skip(i as int)[0] == av[i as int]);
            assert(av[i as int] == json_view(a@[i as int]));
            assert(av.skip(i as int).drop_first() =~= av.skip(i as int + 1));
        }
        match service_from_json(x) {
            None => {
                proof {
                    assert(f(av.skip(i as int)[0]) is None);
                }
                return None;
            },
            Some(t) => {
                proof {
                    assert(f(av.skip(i as int)[0]) == Some(t@));
                }
                out.push(t);
                proof {
                    assert(out.deep_view() =~= outdv.push(t@));
                    if spec_decode_list(av.skip(i as int + 1), f) is Some {
                        let rest = spec_decode_list(av.skip(i as int + 1), f).unwrap();
                        assert(outdv + (seq![t@] + rest) =~= outdv.push(t@) + rest);
                    }
                }
            },
        }
        i += 1;
    }
    proof {
        assert(av.skip(i as int) =~= Seq::<JsonV>::empty());
        assert(out.deep_view() + Seq::<ServiceView>::empty() =~= out.deep_view());
    }
    Some(out)
}

/// Decode a street address from an object's members.
pub open spec fn spec_building_address_from_obj(es: Seq<(Seq<char>, JsonV)>) -> Option<BuildingAddressView> {
    if field_str(es, "street"@).is_some() && field_str(es, "city"@).is_some() && field_str(es, "province"@).is_some() && field_str(es, "country"@).is_some() && field_str(es, "postal"@).is_some() {
        Some(BuildingAddressView {
            street: field_str(es, "street"@).unwrap(),
            city: field_str(es, "city"@).unwrap(),
            province: field_str(es, "province"@).unwrap(),
            country: field_str(es, "country"@).unwrap(),
            postal: field_str(es, "postal"@).unwrap(),
        })
    } else {
        None
    }
}

/// Decode a street address: anything but an object fails.
pub open spec fn spec_building_address_from_json(j: JsonV) -> Option<BuildingAddressView> {
    match j {
        JsonV::Obj(es) => spec_building_address_from_obj(es),
        _ => None,
    }
}

pub open spec fn dec_building_address() -> spec_fn(JsonV) -> Option<BuildingAddressView> {
    |j: JsonV| spec_building_address_from_json(j)
}

/// Decode a street address, exactly as `spec_building_address_from_json` does on the model.
pub fn building_address_from_json(j: &Json) -> (r: Option<BuildingAddress>)
    ensures
        match r {
            Some(v) => spec_building_address_from_json(j@) == Some(v@),
            None => spec_building_address_from_json(j@) is None,
        },
{
    match j {
        Json::Obj(es) => {
            let street = match get_field_str(es, "street") {
                Some(v) => v,
                None => {
                    return None;
                },
            };
            let city = match get_field_str(es, "city") {
                Some(v) => v,
                None => {
                    return None;
                },
            };
            let province = match get_field_str(es, "province") {
                Some(v) => v,
                None => {
                    return None;
                },
            };
            let country = match get_field_str(es, "country") {
                Some(v) => v,
                None => {
                    return None;
                },
            };
            let postal = match get_field_str(es, "postal") {
                Some(v) => v,
                None => {
                    return None;
                },
            };
            Some(BuildingAddress { street, city, province, country, postal })
        },
        _ => None,
    }
}

/// Read an optional a street address member, as `field_rec` does on the model.
pub fn get_field_building_address(es: &Vec<(String, Json)>, k: &str) -> (r: Option<Option<BuildingAddress>>)
    ensures
        match r {
            Some(v) => field_rec(json_pairs_view(*es), k@, dec_building_address()) == Some(v.deep_view()),
            None => field_rec(json_pairs_view(*es), k@, dec_building_address()) is None,
        },
{
    match obj_get(es, k) {
        None => Some(None),
        Some(j) => match j {
            Json::Null => Some(None),
            other => match building_address_from_json(other) {
                Some(v) => Some(Some(v)),
                None => None,
            },
        },
    }
}

/// Decode a building record from an object's members.
pub open spec fn spec_building_from_obj(es: Seq<(Seq<char>, JsonV)>) -> Option<BuildingView> {
    if field_str(es, "id"@).is_some() && field_str(es, "code"@).is_some() && field_str(es, "tags"@).is_some() && field_str(es, "name"@).is_some() && field_str(es, "short_name"@).is_some() && field_rec(es, "address"@, dec_building_address()).is_some() && field_rec(es, "coordinates"@, dec_coordinates()).is_some() && field_str(es, "last_updated"@).is_some() {
        Some(BuildingView {
            id: field_str(es, "id"@).unwrap(),
            code: field_str(es, "code"@).unwrap(),
            tags: field_str(es, "tags"@).unwrap(),
            name: field_str(es, "name"@).unwrap(),
            short_name: field_str(es, "short_name"@).unwrap(),
            address: field_rec(es, "address"@, dec_building_address()).unwrap(),
            coordinates: field_rec(es, "coordinates"@, dec_coordinates()).unwrap(),
            last_updated: field_str(es, "last_updated"@).unwrap(),
        })
    } else {
        None
    }
}

/// Decode a building record: anything but an object fails.
pub open spec fn spec_building_from_json(j: JsonV) -> Option<BuildingView> {
    match j {
        JsonV::Obj(es) => spec_building_from_obj(es),
        _ => None,
    }
}

pub open spec fn dec_building() -> spec_fn(JsonV) -> Option<BuildingView> {
    |j: JsonV| spec_building_from_json(j)
}

/// Decode a building record, exactly as `spec_building_from_json` does on the model.
pub fn building_from_json(j: &Json) -> (r: Option<Building>)
    ensures
        match r {
            Some(v) => spec_building_from_json(j@) == Some(v@),
            None => spec_building_from_json(j@) is None,
        },
{
    match j {
        Json::Obj(es) => {
            let id = match get_field_str(es, "id") {
                Some(v) => v,
                None => {
                    return None;
                },
            };
            let code = match get_field_str(es, "code") {
                Some(v) => v,
                None => {
                    return None;
                },
            };
            let tags = match get_field_str(es, "tags") {
                Some(v) => v,
                None => {
                    return None;
                },
            };
            let name = match get_field_str(es, "name") {
                Some(v) => v,
                None => {
                    return None;
                },
            };
            let short_name = match get_field_str(es, "short_name") {
                Some(v) => v,
                None => {
                    return None;
                },
            };
            let address = match get_field_building_address(es, "address") {
                Some(v) => v,
                None => {
                    return None;
                },
            };
            let coordinates = match get_field_coordinates(es, "coordinates") {
                Some(v) => v,
                None => {
                    return None;
                },
            };
            let last_updated = match get_field_str(es, "last_updated") {
                Some(v) => v,
                None => {
                    return None;
                },
            };
            Some(Building { id, code, tags, name, short_name, address, coordinates, last_updated })
        },
        _ => None,
    }
}

/// Decode every element of an array of a building records.
pub fn dec_building_list(a: &Vec<Json>) -> (r: Option<Vec<Building>>)
    ensures
        match r {
            Some(v) => spec_decode_list(json_seq_view(*a), dec_building()) == Some(v.deep_view()),
            None => spec_decode_list(json_seq_view(*a), dec_building()) is None,
        },
{
    let ghost f = dec_building();
    let ghost av = json_seq_view(*a);
    let mut out: Vec<Building> = Vec::new();
    proof {
        assert(av.skip(0) =~= av);
        assert(out.deep_view() =~= Seq::<BuildingView>::empty());
    }
    let mut i: usize = 0;
    while i < a.len()
        invariant
            i <= a@.len(),
            av == json_seq_view(*a),
            f == dec_building(),
            av.len() == a@.len(),
            out.deep_view().len() == i as int,
            match spec_decode_list(av.skip(i as int), f) {
                Some(rest) => spec_decode_list(av, f) == Some(out.deep_view() + rest),
                None => spec_decode_list(av, f) is None,
            },
        decreases a@.len() - i,
    {
        let ghost outdv = out.deep_view();
        let x = &a[i];
        proof {
            assert(av.skip(i as int)[0] == av[i as int]);
            assert(av[i as int] == json_view(a@[i as int]));
            assert(av.skip(i as int).drop_first() =~= av.skip(i as int + 1));
        }
        match building_from_json(x) {
            None => {
                proof {
                    assert(f(av.skip(i as int)[0]) is None);
                }
                return None;
            },
            Some(t) => {
                proof {
                    assert(f(av.skip(i as int)[0]) == Some(t@));
                }
                out.push(t);
                proof {
                    assert(out.deep_view() =~= outdv.push(t@));
                    if spec_decode_list(av.skip(i as int + 1), f) is Some {
                        let rest = spec_decode_list(av.skip(i as int + 1), f).unwrap();
                        assert(outdv + (seq![t@] + rest) =~= outdv.push(t@) + rest);
                    }
                }
            },
        }
        i += 1;
    }
    proof {
        assert(av.skip(i as int) =~= Seq::<JsonV>::empty());
        assert(out.deep_view() + Seq::<BuildingView>::empty() =~= out.deep_view());
    }
    Some(out)
}

/// Decode a parking record from an object's members.
pub open spec fn spec_parking_from_obj(es: Seq<(Seq<char>, JsonV)>) -> Option<ParkingView> {
    if field_str(es, "id"@).is_some() && field_str(es, "name"@).is_some() && field_str(es, "alias"@).is_some() && field_str(es, "building_id"@).is_some() && field_str(es, "description"@).is_some() && field_str(es, "campus"@).is_some() && field_str(es, "address"@).is_some() && field_rec(es, "coordinates"@, dec_coordinates()).is_some() && field_str(es, "last_updated"@).is_some() {
        Some(ParkingView {
            id: field_str(es, "id"@).unwrap(),
            name: field_str(es, "name"@).unwrap(),
            alias: field_str(es, "alias"@).unwrap(),
            building_id: field_str(es, "building_id"@).unwrap(),
            description: field_str(es, "description"@).unwrap(),
            campus: field_str(es, "campus"@).unwrap(),
            address: field_str(es, "address"@).unwrap(),
            coordinates: field_rec(es, "coordinates"@, dec_coordinates()).unwrap(),
            last_updated: field_str(es, "last_updated"@).unwrap(),
        })
    } else {
        None
    }
}

/// Decode a parking record: anything but an object fails.
pub open spec fn spec_parking_from_json(j: JsonV) -> Option<ParkingView> {
    match j {
        JsonV::Obj(es) => spec_parking_from_obj(es),
        _ => None,
    }
}

pub open spec fn dec_parking() -> spec_fn(JsonV) -> Option<ParkingView> {
    |j: JsonV| spec_parking_from_json(j)
}

/// Decode a parking record, exactly as `spec_parking_from_json` does on the model.
pub fn parking_from_json(j: &Json) -> (r: Option<Parking>)
    ensures
        match r {
            Some(v) => spec_parking_from_json(j@) == Some(v@),
            None => spec_parking_from_json(j@) is None,
        },
{
    match j {
        Json::Obj(es) => {
            let id = match get_field_str(es, "id") {
                Some(v) => v,
                None => {
                    return None;
                },
            };
            let name = match get_field_str(es, "name") {
                Some(v) => v,
                None => {
                    return None;
                },
            };
            let alias = match get_field_str(es, "alias") {
                Some(v) => v,
                None => {
                    return None;
                },
            };
            let building_id = match get_field_str(es, "building_id") {
                Some(v) => v,
                None => {
                    return None;
                },
            };
            let description = match get_field_str(es, "description") {
                Some(v) => v,
                None => {
                    return None;
                },
            };
            let campus = match get_field_str(es, "campus") {
                Some(v) => v,
                None => {
                    return None;
                },
            };
            let address = match get_field_str(es, "address") {
                Some(v) => v,
                None => {
                    return None;
                },
            };
            let coordinates = match get_field_coordinates(es, "coordinates") {
                Some(v) => v,
                None => {
                    return None;
                },
            };
            let last_updated = match get_field_str(es, "last_updated") {
                Some(v) => v,
                None => {
                    return None;
                },
            };
            Some(Parking { id, name, alias, building_id, description, campus, address, coordinates, last_updated })
        },
        _ => None,
    }
}

/// Decode every element of an array of a parking records.
pub fn dec_parking_list(a: &Vec<Json>) -> (r: Option<Vec<Parking>>)
    ensures
        match r {
            Some(v) => spec_decode_list(json_seq_view(*a), dec_parking()) == Some(v.deep_view()),
            None => spec_decode_list(json_seq_view(*a), dec_parking()) is None,
        },
{
    let ghost f = dec_parking();
    let ghost av = json_seq_view(*a);
    let mut out: Vec<Parking> = Vec::new();
    proof {
        assert(av.skip(0) =~= av);
        assert(out.deep_view() =~= Seq::<ParkingView>::empty());
    }
    let mut i: usize = 0;
    while i < a.len()
        invariant
            i <= a@.len(),
            av == json_seq_view(*a),
            f == dec_parking(),
            av.len() == a@.len(),
            out.deep_view().len() == i as int,
            match spec_decode_list(av.skip(i as int), f) {
                Some(rest) => spec_decode_list(av, f) == Some(out.deep_view() + rest),
                None => spec_decode_list(av, f) is None,
            },
        decreases a@.len() - i,
    {
        let ghost outdv = out.deep_view();
        let x = &a[i];
        proof {
            assert(av.skip(i as int)[0] == av[i as int]);
            assert(av[i as int] == json_view(a@[i as int]));
            assert(av.skip(i as int).drop_first() =~= av.skip(i as int + 1));
        }
        match parking_from_json(x) {
            None => {
                proof {
                    assert(f(av.skip(i as int)[0]) is None);
                }
                return None;
            },
            Some(t) => {
                proof {
                    assert(f(av.skip(i as int)[0]) == Some(t@));
                }
                out.push(t);
                proof {
                    assert(out.deep_view() =~= outdv.push(t@));
                    if spec_decode_list(av.skip(i as int + 1), f) is Some {
                        let rest = spec_decode_list(av.skip(i as int + 1), f).unwrap();
                        assert(outdv + (seq![t@] + rest) =~= outdv.push(t@) + rest);
                    }
                }
            },
        }
        i += 1;
    }
    proof {
        assert(av.skip(i as int) =~= Seq::<JsonV>::empty());
        assert(out.deep_view() + Seq::<ParkingView>::empty() =~= out.deep_view());
    }
    Some(out)
}

/// Decode a response envelope: `response` must be present and an array;
/// the status members are independently optional.
pub open spec fn spec_envelope_from_json<T>(
    j: JsonV,
    f: spec_fn(JsonV) -> Option<T>,
) -> Option<ResponseView<T>> {
    match j {
        JsonV::Obj(es) => match spec_obj_get(es, "response"@) {
            Option::Some(JsonV::Arr(a)) => {
                if spec_decode_list(a, f).is_some() && field_int(es, "status_code"@).is_some()
                    && field_str(es, "status_message"@).is_some() {
                    Some(ResponseView {
                        response: spec_decode_list(a, f).unwrap(),
                        status_code: field_int(es, "status_code"@).unwrap(),
                        status_message: field_str(es, "status_message"@).unwrap(),
                    })
                } else {
                    None
                }
            },
            _ => None,
        },
        _ => None,
    }
}

/// Decode an envelope of a course records, exactly as the spec envelope decoder
/// does with `dec_course`.
pub fn course_envelope_from_json(j: &Json) -> (r: Option<Response<Course>>)
    ensures
        match r {
            Some(v) => spec_envelope_from_json(j@, dec_course()) == Some(v@),
            None => spec_envelope_from_json(j@, dec_course()) is None,
        },
{
    match j {
        Json::Obj(es) => {
            let response = match obj_get(es, "response") {
                Some(rj) => match rj {
                    Json::Arr(a) => match dec_course_list(a) {
                        Some(v) => v,
                        None => {
                            return None;
                        },
                    },
                    _ => {
                        return None;
                    },
                },
                None => {
                    return None;
                },
            };
            let status_code = match get_field_int(es, "status_code") {
                Some(v) => v,
                None => {
                    return None;
                },
            };
            let status_message = match get_field_str(es, "status_message") {
                Some(v) => v,
                None => {
                    return None;
                },
            };
            Some(Response { response, status_code, status_message })
        },
        _ => None,
    }
}

/// Decode an envelope of a textbook records, exactly as the spec envelope decoder
/// does with `dec_textbook`.
pub fn textbook_envelope_from_json(j: &Json) -> (r: Option<Response<Textbook>>)
    ensures
        match r {
            Some(v) => spec_envelope_from_json(j@, dec_textbook()) == Some(v@),
            None => spec_envelope_from_json(j@, dec_textbook()) is None,
        },
{
    match j {
        Json::Obj(es) => {
            let response = match obj_get(es, "response") {
                Some(rj) => match rj {
                    Json::Arr(a) => match dec_textbook_list(a) {
                        Some(v) => v,
                        None => {
                            return None;
                        },
                    },
                    _ => {
                        return None;
                    },
                },
                None => {
                    return None;
                },
            };
            let status_code = match get_field_int(es, "status_code") {
                Some(v) => v,
                None => {
                    return None;
                },
            };
            let status_message = match get_field_str(es, "status_message") {
                Some(v) => v,
                None => {
                    return None;
                },
            };
            Some(Response { response, status_code, status_message })
        },
        _ => None,
    }
}

/// Decode an envelope of an exam records, exactly as the spec envelope decoder
/// does with `dec_exam`.
pub fn exam_envelope_from_json(j: &Json) -> (r: Option<Response<Exam>>)
    ensures
        match r {
            Some(v) => spec_envelope_from_json(j@, dec_exam()) == Some(v@),
            None => spec_envelope_from_json(j@, dec_exam()) is None,
        },
{
    match j {
        Json::Obj(es) => {
            let response = match obj_get(es, "response") {
                Some(rj) => match rj {
                    Json::Arr(a) => match dec_exam_list(a) {
                        Some(v) => v,
                        None => {
                            return None;
                        },
                    },
                    _ => {
                        return None;
                    },
                },
                None => {
                    return None;
                },
            };
            let status_code = match get_field_int(es, "status_code") {
                Some(v) => v,
                None => {
                    return None;
                },
            };
            let status_message = match get_field_str(es, "status_message") {
                Some(v) => v,
                None => {
                    return None;
                },
            };
            Some(Response { response, status_code, status_message })
        },
        _ => None,
    }
}

/// Decode an envelope of a course evaluation records, exactly as the spec envelope decoder
/// does with `dec_eval`.
pub fn eval_envelope_from_json(j: &Json) -> (r: Option<Response<Eval>>)
    ensures
        match r {
            Some(v) => spec_envelope_from_json(j@, dec_eval()) == Some(v@),
            None => spec_envelope_from_json(j@, dec_eval()) is None,
        },
{
    match j {
        Json::Obj(es) => {
            let response = match obj_get(es, "response") {
                Some(rj) => match rj {
                    Json::Arr(a) => match dec_eval_list(a) {
                        Some(v) => v,
                        None => {
                            return None;
                        },
                    },
                    _ => {
                        return None;
                    },
                },
                None => {
                    return None;
                },
            };
            let status_code = match get_field_int(es, "status_code") {
                Some(v) => v,
                None => {
                    return None;
                },
            };
            let status_message = match get_field_str(es, "status_message") {
                Some(v) => v,
                None => {
                    return None;
                },
            };
            Some(Response { response, status_code, status_message })
        },
        _ => None,
    }
}

/// Decode an envelope of a food vendor records, exactly as the spec envelope decoder
/// does with `dec_food`.
pub fn food_envelope_from_json(j: &Json) -> (r: Option<Response<Food>>)
    ensures
        match r {
            Some(v) => spec_envelope_from_json(j@, dec_food()) == Some(v@),
            None => spec_envelope_from_json(j@, dec_food()) is None,
        },
{
    match j {
        Json::Obj(es) => {
            let response = match obj_get(es, "response") {
                Some(rj) => match rj {
                    Json::Arr(a) => match dec_food_list(a) {
                        Some(v) => v,
                        None => {
                            return None;
                        },
                    },
                    _ => {
                        return None;
                    },
                },
                None => {
                    return None;
                },
            };
            let status_code = match get_field_int(es, "status_code") {
                Some(v) => v,
                None => {
                    return None;
                },
            };
            let status_message = match get_field_str(es, "status_message") {
                Some(v) => v,
                None => {
                    return None;
                },
            };
            Some(Response { response, status_code, status_message })
        },
        _ => None,
    }
}

/// Decode an envelope of a service records, exactly as the spec envelope decoder
/// does with `dec_service`.
pub fn service_envelope_from_json(j: &Json) -> (r: Option<Response<Service>>)
    ensures
        match r {
            Some(v) => spec_envelope_from_json(j@, dec_service()) == Some(v@),
            None => spec_envelope_from_json(j@, dec_service()) is None,
        },
{
    match j {
        Json::Obj(es) => {
            let response = match obj_get(es, "response") {
                Some(rj) => match rj {
                    Json::Arr(a) => match dec_service_list(a) {
                        Some(v) => v,
                        None => {
                            return None;
                        },
                    },
                    _ => {
                        return None;
                    },
                },
                None => {
                    return None;
                },
            };
            let status_code = match get_field_int(es, "status_code") {
                Some(v) => v,
                None => {
                    return None;
                },
            };
            let status_message = match get_field_str(es, "status_message") {
                Some(v) => v,
                None => {
                    return None;
                },
            };
            Some(Response { response, status_code, status_message })
        },
        _ => None,
    }
}

/// Decode an envelope of a building records, exactly as the spec envelope decoder
/// does with `dec_building`.
pub fn building_envelope_from_json(j: &Json) -> (r: Option<Response<Building>>)
    ensures
        match r {
            Some(v) => spec_envelope_from_json(j@, dec_building()) == Some(v@),
            None => spec_envelope_from_json(j@, dec_building()) is None,
        },
{
    match j {
        Json::Obj(es) => {
            let response = match obj_get(es, "response") {
                Some(rj) => match rj {
                    Json::Arr(a) => match dec_building_list(a) {
                        Some(v) => v,
                        None => {
                            return None;
                        },
                    },
                    _ => {
                        return None;
                    },
                },
                None => {
                    return None;
                },
            };
            let status_code = match get_field_int(es, "status_code") {
                Some(v) => v,
                None => {
                    return None;
                },
            };
            let status_message = match get_field_str(es, "status_message") {
                Some(v) => v,
                None => {
                    return None;
                },
            };
            Some(Response { response, status_code, status_message })
        },
        _ => None,
    }
}

/// Decode an envelope of a parking records, exactly as the spec envelope decoder
/// does with `dec_parking`.
pub fn parking_envelope_from_json(j: &Json) -> (r: Option<Response<Parking>>)
    ensures
        match r {
            Some(v) => spec_envelope_from_json(j@, dec_parking()) == Some(v@),
            None => spec_envelope_from_json(j@, dec_parking()) is None,
        },
{
    match j {
        Json::Obj(es) => {
            let response = match obj_get(es, "response") {
                Some(rj) => match rj {
                    Json::Arr(a) => match dec_parking_list(a) {
                        Some(v) => v,
                        None => {
                            return None;
                        },
                    },
                    _ => {
                        return None;
                    },
                },
                None => {
                    return None;
                },
            };
            let status_code = match get_field_int(es, "status_code") {
                Some(v) => v,
                None => {
                    return None;
                },
            };
            let status_message = match get_field_str(es, "status_message") {
                Some(v) => v,
                None => {
                    return None;
                },
            };
            Some(Response { response, status_code, status_message })
        },
        _ => None,
    }
}

} // verus!
