//! Round trips through the tree codec, and decoding of hand-written bodies.

use nikel::decode::{
    building_from_json, building_envelope_from_json, course_from_json,
    course_envelope_from_json, eval_from_json, exam_from_json, food_from_json,
    parking_from_json, service_from_json, textbook_from_json,
};
use nikel::encode::{
    building_envelope_to_json, building_to_json, course_envelope_to_json, course_to_json,
    eval_to_json, exam_to_json, food_to_json, parking_to_json, service_to_json, textbook_to_json,
};
use nikel::{
    decode_buildings_body, decode_courses_body, decode_evals_body, decode_exams_body,
    decode_food_body, decode_parking_body, decode_services_body, decode_textbooks_body,
};
use nikel::{
    Building, BuildingAddress, ClientError, Coordinates, Course, CoursesMeetingSection, DayHours,
    Eval, EvalLecture, EvalTerm, Exam, ExamSection, Food, Hours, JsonNumber, Parking, Response,
    Service, Textbook, TextbooksCourse, TextbooksMeetingSection, Time, Weekday,
};

fn s(text: &str) -> Option<String> {
    Some(text.to_string())
}

fn num(text: &str) -> Option<JsonNumber> {
    Some(JsonNumber { text: text.to_string() })
}

fn sample_course() -> Course {
    Course {
        id: s("csc108"),
        code: s("CSC108"),
        name: s("Intro to CS"),
        campus: s("utsg"),
        level: s("100"),
        meeting_sections: vec![CoursesMeetingSection {
            code: s("L0101"),
            instructors: vec!["A. Person".to_string(), "B. Person".to_string()],
            times: vec![Time {
                day: s("MONDAY"),
                start: Some(32400),
                end: Some(39600),
                duration: Some(7200),
                location: s("BA 1160"),
            }],
            size: Some(200),
            enrollment: Some(180),
            waitlist_option: Some(true),
            delivery: s("in-person"),
        }],
        last_updated: s("2020-09-01"),
        ..Default::default()
    }
}

#[test]
fn course_tree_round_trip() {
    let original = sample_course();
    let tree = course_to_json(&original);
    assert_eq!(course_from_json(&tree), Some(original));
}

#[test]
fn textbook_tree_round_trip() {
    let original = Textbook {
        id: s("tb1"),
        isbn: s("9780134092669"),
        title: s("Problem Solving"),
        edition: Some(4),
        author: s("Someone"),
        price: num("119.99"),
        courses: vec![TextbooksCourse {
            id: s("csc108"),
            code: s("CSC108"),
            requirement: s("required"),
            meeting_sections: vec![TextbooksMeetingSection {
                code: s("L0101"),
                instructors: vec!["A. Person".to_string()],
            }],
        }],
        ..Default::default()
    };
    let tree = textbook_to_json(&original);
    assert_eq!(textbook_from_json(&tree), Some(original));
}

#[test]
fn exam_tree_round_trip() {
    let original = Exam {
        id: s("csc108-dec"),
        course_code: s("CSC108"),
        campus: s("utsg"),
        date: s("2019-12-10"),
        start: Some(90000),
        end: Some(100800),
        duration: Some(10800),
        sections: vec![ExamSection {
            lecture_code: s("L0101"),
            split: s("A-K"),
            location: s("GB 304"),
        }],
        ..Default::default()
    };
    let tree = exam_to_json(&original);
    assert_eq!(exam_from_json(&tree), Some(original));
}

#[test]
fn eval_tree_round_trip() {
    let original = Eval {
        id: s("csc108-2019"),
        name: s("Intro to CS"),
        campus: s("utsg"),
        terms: vec![EvalTerm {
            term: s("2019F"),
            lectures: vec![EvalLecture {
                lecture_code: s("L0101"),
                firstname: s("A."),
                lastname: s("Person"),
                s1: num("4.5"),
                s2: num("4.2"),
                s6: num("3.9"),
                invited: Some(200),
                responses: Some(120),
                ..Default::default()
            }],
        }],
        ..Default::default()
    };
    let tree = eval_to_json(&original);
    assert_eq!(eval_from_json(&tree), Some(original));
}

#[test]
fn food_tree_round_trip() {
    let original = Food {
        id: s("food1"),
        name: s("Some Cafe"),
        campus: s("utsg"),
        coordinates: Some(Coordinates { latitude: num("43.6629"), longitude: num("-79.3957") }),
        hours: Some(Hours {
            sunday: Some(DayHours { closed: Some(true), open: None, close: None }),
            monday: Some(DayHours { closed: Some(false), open: Some(32400), close: Some(61200) }),
            ..Default::default()
        }),
        attributes: vec!["coffee".to_string(), "vegan".to_string()],
        ..Default::default()
    };
    let tree = food_to_json(&original);
    assert_eq!(food_from_json(&tree), Some(original));
}

#[test]
fn service_tree_round_trip() {
    let original = Service {
        id: s("svc1"),
        name: s("Registrar"),
        building_id: s("b1"),
        coordinates: Some(Coordinates { latitude: num("43.66"), longitude: num("-79.39") }),
        attributes: vec!["student-services".to_string()],
        ..Default::default()
    };
    let tree = service_to_json(&original);
    assert_eq!(service_from_json(&tree), Some(original));
}

#[test]
fn building_tree_round_trip() {
    let original = Building {
        id: s("b1"),
        code: s("BA"),
        name: s("Bahen Centre"),
        address: Some(BuildingAddress {
            street: s("40 St George St"),
            city: s("Toronto"),
            province: s("ON"),
            country: s("Canada"),
            postal: s("M5S 2E4"),
        }),
        coordinates: Some(Coordinates { latitude: num("43.6597"), longitude: num("-79.3972") }),
        ..Default::default()
    };
    let tree = building_to_json(&original);
    assert_eq!(building_from_json(&tree), Some(original));
}

#[test]
fn parking_tree_round_trip() {
    let original = Parking {
        id: s("p1"),
        name: s("Some Garage"),
        alias: s("garage"),
        campus: s("utsg"),
        coordinates: Some(Coordinates { latitude: num("43.65"), longitude: num("-79.38") }),
        ..Default::default()
    };
    let tree = parking_to_json(&original);
    assert_eq!(parking_from_json(&tree), Some(original));
}

#[test]
fn extreme_integers_round_trip() {
    let original = Time {
        start: Some(i64::MIN),
        end: Some(i64::MAX),
        duration: Some(0),
        ..Default::default()
    };
    let section = CoursesMeetingSection { times: vec![original.clone()], ..Default::default() };
    let tree = course_to_json(&Course {
        meeting_sections: vec![section],
        ..Default::default()
    });
    let back = course_from_json(&tree).unwrap();
    assert_eq!(back.meeting_sections[0].times[0], original);
}

#[test]
fn envelope_tree_round_trip() {
    let envelope = Response {
        response: vec![sample_course()],
        status_code: Some(200),
        status_message: Some("ok".to_string()),
    };
    let tree = course_envelope_to_json(&envelope);
    assert_eq!(course_envelope_from_json(&tree), Some(envelope));
    let empty = Response::<Building> { response: vec![], status_code: None, status_message: None };
    let empty_tree = building_envelope_to_json(&empty);
    assert_eq!(building_envelope_from_json(&empty_tree), Some(empty));
}

#[test]
fn body_with_one_course() {
    let body = "{\"response\":[{\"code\":\"CSC108\",\"campus\":\"utsg\",\"name\":\"Intro to CS\"}],\"status_code\":200,\"status_message\":null}";
    let envelope = decode_courses_body(body).unwrap();
    assert_eq!(envelope.status_code, Some(200));
    assert_eq!(envelope.status_message, None);
    assert_eq!(envelope.response.len(), 1);
    let expected = Course {
        code: s("CSC108"),
        campus: s("utsg"),
        name: s("Intro to CS"),
        ..Default::default()
    };
    assert_eq!(envelope.response[0], expected);
}

#[test]
fn empty_envelope_body() {
    let envelope = decode_courses_body("{\"response\":[]}").unwrap();
    assert_eq!(envelope.response, vec![]);
    assert_eq!(envelope.status_code, None);
    assert_eq!(envelope.status_message, None);
}

#[test]
fn absent_members_decode_to_absent_fields() {
    let envelope = decode_courses_body("{\"response\":[{}]}").unwrap();
    assert_eq!(envelope.response[0], Course::default());
    let textbooks = decode_textbooks_body("{\"response\":[{}]}").unwrap();
    assert_eq!(textbooks.response[0], Textbook::default());
    let food = decode_food_body("{\"response\":[{}]}").unwrap();
    assert_eq!(food.response[0], Food::default());
}

#[test]
fn response_as_object_is_rejected() {
    let result = decode_courses_body("{\"response\":{}}");
    assert!(matches!(result, Err(ClientError::DeserializationError(_))));
}

#[test]
fn missing_response_member_is_rejected() {
    let result = decode_exams_body("{\"status_code\":200}");
    assert!(matches!(result, Err(ClientError::DeserializationError(_))));
}

#[test]
fn non_json_body_is_rejected() {
    let result = decode_evals_body("not json at all {");
    assert!(matches!(result, Err(ClientError::DeserializationError(_))));
}

#[test]
fn wrongly_typed_member_is_rejected() {
    let result = decode_buildings_body("{\"response\":[{\"code\":7}]}");
    assert!(matches!(result, Err(ClientError::DeserializationError(_))));
    let result = decode_services_body("{\"response\":[{\"attributes\":null}]}");
    assert!(matches!(result, Err(ClientError::DeserializationError(_))));
    let result = decode_parking_body("{\"response\":[],\"status_code\":\"200\"}");
    assert!(matches!(result, Err(ClientError::DeserializationError(_))));
}

#[test]
fn null_members_decode_to_absent_fields() {
    let body = "{\"response\":[{\"code\":null,\"start\":null}],\"status_code\":null}";
    let envelope = decode_exams_body(body).unwrap();
    assert_eq!(envelope.response[0], Exam::default());
    assert_eq!(envelope.status_code, None);
}

#[test]
fn number_text_is_kept_verbatim() {
    let body = "{\"response\":[{\"price\":129.95}]}";
    let envelope = decode_textbooks_body(body).unwrap();
    assert_eq!(
        envelope.response[0].price,
        Some(JsonNumber { text: "129.95".to_string() }),
    );
}

#[test]
fn integer_member_rejects_fractions() {
    let body = "{\"response\":[{\"edition\":2.5}]}";
    assert!(matches!(
        decode_textbooks_body(body),
        Err(ClientError::DeserializationError(_)),
    ));
}

#[test]
fn status_members_are_surfaced_not_interpreted() {
    let body = "{\"response\":[],\"status_code\":404,\"status_message\":\"not found\"}";
    let envelope = decode_services_body(body).unwrap();
    assert_eq!(envelope.status_code, Some(404));
    assert_eq!(envelope.status_message.as_deref(), Some("not found"));
    assert!(envelope.response.is_empty());
}

#[test]
fn hours_are_indexed_by_weekday() {
    let hours = Hours {
        monday: Some(DayHours { closed: Some(false), open: Some(32400), close: Some(61200) }),
        ..Default::default()
    };
    assert_eq!(hours.day(Weekday::Monday), &hours.monday);
    assert_eq!(hours.day(Weekday::Sunday), &None);
    assert_eq!(hours.day(Weekday::Saturday), &None);
}
