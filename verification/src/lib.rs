//! A typed client for a university-data REST service: courses, textbooks,
//! exams, evaluations, food, services, buildings and parking.
//!
//! Each endpoint has one fetch operation that builds a query URL from
//! caller-supplied key/value pairs, issues a blocking GET, and decodes the
//! JSON body into a typed envelope of records. URL construction and the
//! whole JSON-tree-to-record codec are verified; the HTTP transfer and the
//! text-to-tree parse are trusted boundaries (see `client` and `wire`).

pub mod client;
pub mod decode;
pub mod encode;
pub mod error;
pub mod json;
pub mod laws;
pub mod records;
pub mod text;
pub mod wire;

pub use client::{buildings, courses, evals, exams, food, parking, services, textbooks};
pub use client::{
    decode_buildings_body, decode_courses_body, decode_evals_body, decode_exams_body,
    decode_food_body, decode_parking_body, decode_services_body, decode_textbooks_body,
};
pub use client::{NikelAPI, NikelResult, Parameters};
pub use error::ClientError;
pub use records::{
    Building, BuildingAddress, Coordinates, Course, CoursesMeetingSection, DayHours, Eval,
    EvalLecture, EvalTerm, Exam, ExamSection, Food, Hours, JsonNumber, Parking, Response, Service,
    Textbook, TextbooksCourse, TextbooksMeetingSection, Time, Weekday,
};
