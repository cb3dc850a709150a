//! The record types of the service's eight endpoints, and the envelope that
//! every response wraps them in.
//!
//! Every scalar field is optional: the upstream service may omit any member,
//! and an omitted member is kept distinct from an empty or zero value.
//! Sequence-valued fields are plain vectors; an omitted sequence member is
//! an empty vector. Number-valued fields that are not integers keep the
//! number's literal decimal text in a [`JsonNumber`], so nothing is rounded.
//!
//! Each executable record has a mathematical view (`*View`) over `Seq` and
//! `Option`, which the decoding and encoding contracts are stated over.

use vstd::prelude::*;

verus! {

/// A non-integer JSON number, kept as its literal decimal text.
#[derive(Debug, Clone, PartialEq, Default)]
pub struct JsonNumber {
    pub text: String,
}

impl View for JsonNumber {
    type V = Seq<char>;

    open spec fn view(&self) -> Seq<char> {
        self.text@
    }
}

impl DeepView for JsonNumber {
    type V = Seq<char>;

    open spec fn deep_view(&self) -> Seq<char> {
        self.text@
    }
}

/// The envelope every endpoint returns: the records, and a status code and
/// message that the upstream may or may not include, independently of
/// success.
#[derive(Debug, Clone, PartialEq, Default)]
pub struct Response<T> {
    pub response: Vec<T>,
    pub status_code: Option<i64>,
    pub status_message: Option<String>,
}

#[verifier::ext_equal]
pub ghost struct ResponseView<T> {
    pub response: Seq<T>,
    pub status_code: Option<i64>,
    pub status_message: Option<Seq<char>>,
}

impl<T: DeepView> View for Response<T> {
    type V = ResponseView<T::V>;

    open spec fn view(&self) -> ResponseView<T::V> {
        ResponseView {
            response: self.response.deep_view(),
            status_code: self.status_code,
            status_message: self.status_message.deep_view(),
        }
    }
}

impl<T: DeepView> DeepView for Response<T> {
    type V = ResponseView<T::V>;

    open spec fn deep_view(&self) -> ResponseView<T::V> {
        self.view()
    }
}

#[derive(Debug, Clone, PartialEq, Default)]
pub struct Course {
    pub id: Option<String>,
    pub code: Option<String>,
    pub name: Option<String>,
    pub description: Option<String>,
    pub division: Option<String>,
    pub department: Option<String>,
    pub prerequisites: Option<String>,
    pub corequisites: Option<String>,
    pub exclusions: Option<String>,
    pub recommended_preparation: Option<String>,
    pub level: Option<String>,
    pub campus: Option<String>,
    pub term: Option<String>,
    pub arts_and_science_breadth: Option<String>,
    pub arts_and_science_distribution: Option<String>,
    pub utm_distribution: Option<String>,
    pub utsc_breadth: Option<String>,
    pub apsc_electives: Option<String>,
    pub meeting_sections: Vec<CoursesMeetingSection>,
    pub last_updated: Option<String>,
}

#[verifier::ext_equal]
pub ghost struct CourseView {
    pub id: Option<Seq<char>>,
    pub code: Option<Seq<char>>,
    pub name: Option<Seq<char>>,
    pub description: Option<Seq<char>>,
    pub division: Option<Seq<char>>,
    pub department: Option<Seq<char>>,
    pub prerequisites: Option<Seq<char>>,
    pub corequisites: Option<Seq<char>>,
    pub exclusions: Option<Seq<char>>,
    pub recommended_preparation: Option<Seq<char>>,
    pub level: Option<Seq<char>>,
    pub campus: Option<Seq<char>>,
    pub term: Option<Seq<char>>,
    pub arts_and_science_breadth: Option<Seq<char>>,
    pub arts_and_science_distribution: Option<Seq<char>>,
    pub utm_distribution: Option<Seq<char>>,
    pub utsc_breadth: Option<Seq<char>>,
    pub apsc_electives: Option<Seq<char>>,
    pub meeting_sections: Seq<CoursesMeetingSectionView>,
    pub last_updated: Option<Seq<char>>,
}

impl View for Course {
    type V = CourseView;

    open spec fn view(&self) -> CourseView {
        CourseView {
            id: self.id.deep_view(),
            code: self.code.deep_view(),
            name: self.name.deep_view(),
            description: self.description.deep_view(),
            division: self.division.deep_view(),
            department: self.department.deep_view(),
            prerequisites: self.prerequisites.deep_view(),
            corequisites: self.corequisites.deep_view(),
            exclusions: self.exclusions.deep_view(),
            recommended_preparation: self.recommended_preparation.deep_view(),
            level: self.level.deep_view(),
            campus: self.campus.deep_view(),
            term: self.term.deep_view(),
            arts_and_science_breadth: self.arts_and_science_breadth.deep_view(),
            arts_and_science_distribution: self.arts_and_science_distribution.deep_view(),
            utm_distribution: self.utm_distribution.deep_view(),
            utsc_breadth: self.utsc_breadth.deep_view(),
            apsc_electives: self.apsc_electives.deep_view(),
            meeting_sections: self.meeting_sections.deep_view(),
            last_updated: self.last_updated.deep_view(),
        }
    }
}

impl DeepView for Course {
    type V = CourseView;

    open spec fn deep_view(&self) -> CourseView {
        self.view()
    }
}

#[derive(Debug, Clone, PartialEq, Default)]
pub struct CoursesMeetingSection {
    pub code: Option<String>,
    pub instructors: Vec<String>,
    pub times: Vec<Time>,
    pub size: Option<i64>,
    pub enrollment: Option<i64>,
    pub waitlist_option: Option<bool>,
    pub delivery: Option<String>,
}

#[verifier::ext_equal]
pub ghost struct CoursesMeetingSectionView {
    pub code: Option<Seq<char>>,
    pub instructors: Seq<Seq<char>>,
    pub times: Seq<TimeView>,
    pub size: Option<i64>,
    pub enrollment: Option<i64>,
    pub waitlist_option: Option<bool>,
    pub delivery: Option<Seq<char>>,
}

impl View for CoursesMeetingSection {
    type V = CoursesMeetingSectionView;

    open spec fn view(&self) -> CoursesMeetingSectionView {
        CoursesMeetingSectionView {
            code: self.code.deep_view(),
            instructors: self.instructors.deep_view(),
            times: self.times.deep_view(),
            size: self.size,
            enrollment: self.enrollment,
            waitlist_option: self.waitlist_option,
            delivery: self.delivery.deep_view(),
        }
    }
}

impl DeepView for CoursesMeetingSection {
    type V = CoursesMeetingSectionView;

    open spec fn deep_view(&self) -> CoursesMeetingSectionView {
        self.view()
    }
}

#[derive(Debug, Clone, PartialEq, Default)]
pub struct Time {
    pub day: Option<String>,
    pub start: Option<i64>,
    pub end: Option<i64>,
    pub duration: Option<i64>,
    pub location: Option<String>,
}

#[verifier::ext_equal]
pub ghost struct TimeView {
    pub day: Option<Seq<char>>,
    pub start: Option<i64>,
    pub end: Option<i64>,
    pub duration: Option<i64>,
    pub location: Option<Seq<char>>,
}

impl View for Time {
    type V = TimeView;

    open spec fn view(&self) -> TimeView {
        TimeView {
            day: self.day.deep_view(),
            start: self.start,
            end: self.end,
            duration: self.duration,
            location: self.location.deep_view(),
        }
    }
}

impl DeepView for Time {
    type V = TimeView;

    open spec fn deep_view(&self) -> TimeView {
        self.view()
    }
}

#[derive(Debug, Clone, PartialEq, Default)]
pub struct Textbook {
    pub id: Option<String>,
    pub isbn: Option<String>,
    pub title: Option<String>,
    pub edition: Option<i64>,
    pub author: Option<String>,
    pub image: Option<String>,
    pub price: Option<JsonNumber>,
    pub url: Option<String>,
    pub courses: Vec<TextbooksCourse>,
    pub last_updated: Option<String>,
}

#[verifier::ext_equal]
pub ghost struct TextbookView {
    pub id: Option<Seq<char>>,
    pub isbn: Option<Seq<char>>,
    pub title: Option<Seq<char>>,
    pub edition: Option<i64>,
    pub author: Option<Seq<char>>,
    pub image: Option<Seq<char>>,
    pub price: Option<Seq<char>>,
    pub url: Option<Seq<char>>,
    pub courses: Seq<TextbooksCourseView>,
    pub last_updated: Option<Seq<char>>,
}

impl View for Textbook {
    type V = TextbookView;

    open spec fn view(&self) -> TextbookView {
        TextbookView {
            id: self.id.deep_view(),
            isbn: self.isbn.deep_view(),
            title: self.title.deep_view(),
            edition: self.edition,
            author: self.author.deep_view(),
            image: self.image.deep_view(),
            price: self.price.deep_view(),
            url: self.url.deep_view(),
            courses: self.courses.deep_view(),
            last_updated: self.last_updated.deep_view(),
        }
    }
}

impl DeepView for Textbook {
    type V = TextbookView;

    open spec fn deep_view(&self) -> TextbookView {
        self.view()
    }
}

#[derive(Debug, Clone, PartialEq, Default)]
pub struct TextbooksCourse {
    pub id: Option<String>,
    pub code: Option<String>,
    pub requirement: Option<String>,
    pub meeting_sections: Vec<TextbooksMeetingSection>,
}

#[verifier::ext_equal]
pub ghost struct TextbooksCourseView {
    pub id: Option<Seq<char>>,
    pub code: Option<Seq<char>>,
    pub requirement: Option<Seq<char>>,
    pub meeting_sections: Seq<TextbooksMeetingSectionView>,
}

impl View for TextbooksCourse {
    type V = TextbooksCourseView;

    open spec fn view(&self) -> TextbooksCourseView {
        TextbooksCourseView {
            id: self.id.deep_view(),
            code: self.code.deep_view(),
            requirement: self.requirement.deep_view(),
            meeting_sections: self.meeting_sections.deep_view(),
        }
    }
}

impl DeepView for TextbooksCourse {
    type V = TextbooksCourseView;

    open spec fn deep_view(&self) -> TextbooksCourseView {
        self.view()
    }
}

#[derive(Debug, Clone, PartialEq, Default)]
pub struct TextbooksMeetingSection {
    pub code: Option<String>,
    pub instructors: Vec<String>,
}

#[verifier::ext_equal]
pub ghost struct TextbooksMeetingSectionView {
    pub code: Option<Seq<char>>,
    pub instructors: Seq<Seq<char>>,
}

impl View for TextbooksMeetingSection {
    type V = TextbooksMeetingSectionView;

    open spec fn view(&self) -> TextbooksMeetingSectionView {
        TextbooksMeetingSectionView {
            code: self.code.deep_view(),
            instructors: self.instructors.deep_view(),
        }
    }
}

impl DeepView for TextbooksMeetingSection {
    type V = TextbooksMeetingSectionView;

    open spec fn deep_view(&self) -> TextbooksMeetingSectionView {
        self.view()
    }
}

#[derive(Debug, Clone, PartialEq, Default)]
pub struct Exam {
    pub id: Option<String>,
    pub course_id: Option<String>,
    pub course_code: Option<String>,
    pub campus: Option<String>,
    pub date: Option<String>,
    pub start: Option<i64>,
    pub end: Option<i64>,
    pub duration: Option<i64>,
    pub sections: Vec<ExamSection>,
    pub last_updated: Option<String>,
}

#[verifier::ext_equal]
pub ghost struct ExamView {
    pub id: Option<Seq<char>>,
    pub course_id: Option<Seq<char>>,
    pub course_code: Option<Seq<char>>,
    pub campus: Option<Seq<char>>,
    pub date: Option<Seq<char>>,
    pub start: Option<i64>,
    pub end: Option<i64>,
    pub duration: Option<i64>,
    pub sections: Seq<ExamSectionView>,
    pub last_updated: Option<Seq<char>>,
}

impl View for Exam {
    type V = ExamView;

    open spec fn view(&self) -> ExamView {
        ExamView {
            id: self.id.deep_view(),
            course_id: self.course_id.deep_view(),
            course_code: self.course_code.deep_view(),
            campus: self.campus.deep_view(),
            date: self.date.deep_view(),
            start: self.start,
            end: self.end,
            duration: self.duration,
            sections: self.sections.deep_view(),
            last_updated: self.last_updated.deep_view(),
        }
    }
}

impl DeepView for Exam {
    type V = ExamView;

    open spec fn deep_view(&self) -> ExamView {
        self.view()
    }
}

#[derive(Debug, Clone, PartialEq, Default)]
pub struct ExamSection {
    pub lecture_code: Option<String>,
    pub split: Option<String>,
    pub location: Option<String>,
}

#[verifier::ext_equal]
pub ghost struct ExamSectionView {
    pub lecture_code: Option<Seq<char>>,
    pub split: Option<Seq<char>>,
    pub location: Option<Seq<char>>,
}

impl View for ExamSection {
    type V = ExamSectionView;

    open spec fn view(&self) -> ExamSectionView {
        ExamSectionView {
            lecture_code: self.lecture_code.deep_view(),
            split: self.split.deep_view(),
            location: self.location.deep_view(),
        }
    }
}

impl DeepView for ExamSection {
    type V = ExamSectionView;

    open spec fn deep_view(&self) -> ExamSectionView {
        self.view()
    }
}

#[derive(Debug, Clone, PartialEq, Default)]
pub struct Eval {
    pub id: Option<String>,
    pub name: Option<String>,
    pub campus: Option<String>,
    pub terms: Vec<EvalTerm>,
    pub last_updated: Option<String>,
}

#[verifier::ext_equal]
pub ghost struct EvalView {
    pub id: Option<Seq<char>>,
    pub name: Option<Seq<char>>,
    pub campus: Option<Seq<char>>,
    pub terms: Seq<EvalTermView>,
    pub last_updated: Option<Seq<char>>,
}

impl View for Eval {
    type V = EvalView;

    open spec fn view(&self) -> EvalView {
        EvalView {
            id: self.id.deep_view(),
            name: self.name.deep_view(),
            campus: self.campus.deep_view(),
            terms: self.terms.deep_view(),
            last_updated: self.last_updated.deep_view(),
        }
    }
}

impl DeepView for Eval {
    type V = EvalView;

    open spec fn deep_view(&self) -> EvalView {
        self.view()
    }
}

#[derive(Debug, Clone, PartialEq, Default)]
pub struct EvalTerm {
    pub term: Option<String>,
    pub lectures: Vec<EvalLecture>,
}

#[verifier::ext_equal]
pub ghost struct EvalTermView {
    pub term: Option<Seq<char>>,
    pub lectures: Seq<EvalLectureView>,
}

impl View for EvalTerm {
    type V = EvalTermView;

    open spec fn view(&self) -> EvalTermView {
        EvalTermView { term: self.term.deep_view(), lectures: self.lectures.deep_view() }
    }
}

impl DeepView for EvalTerm {
    type V = EvalTermView;

    open spec fn deep_view(&self) -> EvalTermView {
        self.view()
    }
}

#[derive(Debug, Clone, PartialEq, Default)]
pub struct EvalLecture {
    pub lecture_code: Option<String>,
    pub firstname: Option<String>,
    pub lastname: Option<String>,
    pub s1: Option<JsonNumber>,
    pub s2: Option<JsonNumber>,
    pub s3: Option<JsonNumber>,
    pub s4: Option<JsonNumber>,
    pub s5: Option<JsonNumber>,
    pub s6: Option<JsonNumber>,
    pub invited: Option<i64>,
    pub responses: Option<i64>,
}

#[verifier::ext_equal]
pub ghost struct EvalLectureView {
    pub lecture_code: Option<Seq<char>>,
    pub firstname: Option<Seq<char>>,
    pub lastname: Option<Seq<char>>,
    pub s1: Option<Seq<char>>,
    pub s2: Option<Seq<char>>,
    pub s3: Option<Seq<char>>,
    pub s4: Option<Seq<char>>,
    pub s5: Option<Seq<char>>,
    pub s6: Option<Seq<char>>,
    pub invited: Option<i64>,
    pub responses: Option<i64>,
}

impl View for EvalLecture {
    type V = EvalLectureView;

    open spec fn view(&self) -> EvalLectureView {
        EvalLectureView {
            lecture_code: self.lecture_code.deep_view(),
            firstname: self.firstname.deep_view(),
            lastname: self.lastname.deep_view(),
            s1: self.s1.deep_view(),
            s2: self.s2.deep_view(),
            s3: self.s3.deep_view(),
            s4: self.s4.deep_view(),
            s5: self.s5.deep_view(),
            s6: self.s6.deep_view(),
            invited: self.invited,
            responses: self.responses,
        }
    }
}

impl DeepView for EvalLecture {
    type V = EvalLectureView;

    open spec fn deep_view(&self) -> EvalLectureView {
        self.view()
    }
}

#[derive(Debug, Clone, PartialEq, Default)]
pub struct Food {
    pub id: Option<String>,
    pub name: Option<String>,
    pub description: Option<String>,
    pub tags: Option<String>,
    pub campus: Option<String>,
    pub address: Option<String>,
    pub coordinates: Option<Coordinates>,
    pub hours: Option<Hours>,
    pub image: Option<String>,
    pub url: Option<String>,
    pub twitter: Option<String>,
    pub facebook: Option<String>,
    pub attributes: Vec<String>,
    pub last_updated: Option<String>,
}

#[verifier::ext_equal]
pub ghost struct FoodView {
    pub id: Option<Seq<char>>,
    pub name: Option<Seq<char>>,
    pub description: Option<Seq<char>>,
    pub tags: Option<Seq<char>>,
    pub campus: Option<Seq<char>>,
    pub address: Option<Seq<char>>,
    pub coordinates: Option<CoordinatesView>,
    pub hours: Option<HoursView>,
    pub image: Option<Seq<char>>,
    pub url: Option<Seq<char>>,
    pub twitter: Option<Seq<char>>,
    pub facebook: Option<Seq<char>>,
    pub attributes: Seq<Seq<char>>,
    pub last_updated: Option<Seq<char>>,
}

impl View for Food {
    type V = FoodView;

    open spec fn view(&self) -> FoodView {
        FoodView {
            id: self.id.deep_view(),
            name: self.name.deep_view(),
            description: self.description.deep_view(),
            tags: self.tags.deep_view(),
            campus: self.campus.deep_view(),
            address: self.address.deep_view(),
            coordinates: self.coordinates.deep_view(),
            hours: self.hours.deep_view(),
            image: self.image.deep_view(),
            url: self.url.deep_view(),
            twitter: self.twitter.deep_view(),
            facebook: self.facebook.deep_view(),
            attributes: self.attributes.deep_view(),
            last_updated: self.last_updated.deep_view(),
        }
    }
}

impl DeepView for Food {
    type V = FoodView;

    open spec fn deep_view(&self) -> FoodView {
        self.view()
    }
}

/// Opening hours for each day of the week, each day sharing one record
/// shape.
#[derive(Debug, Clone, PartialEq, Default)]
pub struct Hours {
    pub sunday: Option<DayHours>,
    pub monday: Option<DayHours>,
    pub tuesday: Option<DayHours>,
    pub wednesday: Option<DayHours>,
    pub thursday: Option<DayHours>,
    pub friday: Option<DayHours>,
    pub saturday: Option<DayHours>,
}

#[verifier::ext_equal]
pub ghost struct HoursView {
    pub sunday: Option<DayHoursView>,
    pub monday: Option<DayHoursView>,
    pub tuesday: Option<DayHoursView>,
    pub wednesday: Option<DayHoursView>,
    pub thursday: Option<DayHoursView>,
    pub friday: Option<DayHoursView>,
    pub saturday: Option<DayHoursView>,
}

impl View for Hours {
    type V = HoursView;

    open spec fn view(&self) -> HoursView {
        HoursView {
            sunday: self.sunday.deep_view(),
            monday: self.monday.deep_view(),
            tuesday: self.tuesday.deep_view(),
            wednesday: self.wednesday.deep_view(),
            thursday: self.thursday.deep_view(),
            friday: self.friday.deep_view(),
            saturday: self.saturday.deep_view(),
        }
    }
}

impl DeepView for Hours {
    type V = HoursView;

    open spec fn deep_view(&self) -> HoursView {
        self.view()
    }
}

/// A day of the week, indexing the one day-schedule shape that all seven
/// days share.
#[derive(Debug, Clone, Copy, PartialEq, Eq)]
pub enum Weekday {
    Sunday,
    Monday,
    Tuesday,
    Wednesday,
    Thursday,
    Friday,
    Saturday,
}

impl Hours {
    /// The schedule kept for day `d`.
    pub open spec fn spec_day(&self, d: Weekday) -> Option<DayHoursView> {
        match d {
            Weekday::Sunday => self.sunday.deep_view(),
            Weekday::Monday => self.monday.deep_view(),
            Weekday::Tuesday => self.tuesday.deep_view(),
            Weekday::Wednesday => self.wednesday.deep_view(),
            Weekday::Thursday => self.thursday.deep_view(),
            Weekday::Friday => self.friday.deep_view(),
            Weekday::Saturday => self.saturday.deep_view(),
        }
    }

    /// The day's schedule, selected by the day-of-week index.
    pub fn day(&self, d: Weekday) -> (r: &Option<DayHours>)
        ensures
            r.deep_view() == self.spec_day(d),
    {
        match d {
            Weekday::Sunday => &self.sunday,
            Weekday::Monday => &self.monday,
            Weekday::Tuesday => &self.tuesday,
            Weekday::Wednesday => &self.wednesday,
            Weekday::Thursday => &self.thursday,
            Weekday::Friday => &self.friday,
            Weekday::Saturday => &self.saturday,
        }
    }
}

/// One day's schedule: whether the vendor is closed, and the opening and
/// closing times.
#[derive(Debug, Clone, PartialEq, Default)]
pub struct DayHours {
    pub closed: Option<bool>,
    pub open: Option<i64>,
    pub close: Option<i64>,
}

#[verifier::ext_equal]
pub ghost struct DayHoursView {
    pub closed: Option<bool>,
    pub open: Option<i64>,
    pub close: Option<i64>,
}

impl View for DayHours {
    type V = DayHoursView;

    open spec fn view(&self) -> DayHoursView {
        DayHoursView { closed: self.closed, open: self.open, close: self.close }
    }
}

impl DeepView for DayHours {
    type V = DayHoursView;

    open spec fn deep_view(&self) -> DayHoursView {
        self.view()
    }
}

#[derive(Debug, Clone, PartialEq, Default)]
pub struct Service {
    pub id: Option<String>,
    pub name: Option<String>,
    pub alias: Option<String>,
    pub building_id: Option<String>,
    pub description: Option<String>,
    pub campus: Option<String>,
    pub address: Option<String>,
    pub image: Option<String>,
    pub coordinates: Option<Coordinates>,
    pub tags: Option<String>,
    pub attributes: Vec<String>,
    pub last_updated: Option<String>,
}

#[verifier::ext_equal]
pub ghost struct ServiceView {
    pub id: Option<Seq<char>>,
    pub name: Option<Seq<char>>,
    pub alias: Option<Seq<char>>,
    pub building_id: Option<Seq<char>>,
    pub description: Option<Seq<char>>,
    pub campus: Option<Seq<char>>,
    pub address: Option<Seq<char>>,
    pub image: Option<Seq<char>>,
    pub coordinates: Option<CoordinatesView>,
    pub tags: Option<Seq<char>>,
    pub attributes: Seq<Seq<char>>,
    pub last_updated: Option<Seq<char>>,
}

impl View for Service {
    type V = ServiceView;

    open spec fn view(&self) -> ServiceView {
        ServiceView {
            id: self.id.deep_view(),
            name: self.name.deep_view(),
            alias: self.alias.deep_view(),
            building_id: self.building_id.deep_view(),
            description: self.description.deep_view(),
            campus: self.campus.deep_view(),
            address: self.address.deep_view(),
            image: self.image.deep_view(),
            coordinates: self.coordinates.deep_view(),
            tags: self.tags.deep_view(),
            attributes: self.attributes.deep_view(),
            last_updated: self.last_updated.deep_view(),
        }
    }
}

impl DeepView for Service {
    type V = ServiceView;

    open spec fn deep_view(&self) -> ServiceView {
        self.view()
    }
}

#[derive(Debug, Clone, PartialEq, Default)]
pub struct Building {
    pub id: Option<String>,
    pub code: Option<String>,
    pub tags: Option<String>,
    pub name: Option<String>,
    pub short_name: Option<String>,
    pub address: Option<BuildingAddress>,
    pub coordinates: Option<Coordinates>,
    pub last_updated: Option<String>,
}

#[verifier::ext_equal]
pub ghost struct BuildingView {
    pub id: Option<Seq<char>>,
    pub code: Option<Seq<char>>,
    pub tags: Option<Seq<char>>,
    pub name: Option<Seq<char>>,
    pub short_name: Option<Seq<char>>,
    pub address: Option<BuildingAddressView>,
    pub coordinates: Option<CoordinatesView>,
    pub last_updated: Option<Seq<char>>,
}

impl View for Building {
    type V = BuildingView;

    open spec fn view(&self) -> BuildingView {
        BuildingView {
            id: self.id.deep_view(),
            code: self.code.deep_view(),
            tags: self.tags.deep_view(),
            name: self.name.deep_view(),
            short_name: self.short_name.deep_view(),
            address: self.address.deep_view(),
            coordinates: self.coordinates.deep_view(),
            last_updated: self.last_updated.deep_view(),
        }
    }
}

impl DeepView for Building {
    type V = BuildingView;

    open spec fn deep_view(&self) -> BuildingView {
        self.view()
    }
}

#[derive(Debug, Clone, PartialEq, Default)]
pub struct BuildingAddress {
    pub street: Option<String>,
    pub city: Option<String>,
    pub province: Option<String>,
    pub country: Option<String>,
    pub postal: Option<String>,
}

#[verifier::ext_equal]
pub ghost struct BuildingAddressView {
    pub street: Option<Seq<char>>,
    pub city: Option<Seq<char>>,
    pub province: Option<Seq<char>>,
    pub country: Option<Seq<char>>,
    pub postal: Option<Seq<char>>,
}

impl View for BuildingAddress {
    type V = BuildingAddressView;

    open spec fn view(&self) -> BuildingAddressView {
        BuildingAddressView {
            street: self.street.deep_view(),
            city: self.city.deep_view(),
            province: self.province.deep_view(),
            country: self.country.deep_view(),
            postal: self.postal.deep_view(),
        }
    }
}

impl DeepView for BuildingAddress {
    type V = BuildingAddressView;

    open spec fn deep_view(&self) -> BuildingAddressView {
        self.view()
    }
}

#[derive(Debug, Clone, PartialEq, Default)]
pub struct Parking {
    pub id: Option<String>,
    pub name: Option<String>,
    pub alias: Option<String>,
    pub building_id: Option<String>,
    pub description: Option<String>,
    pub campus: Option<String>,
    pub address: Option<String>,
    pub coordinates: Option<Coordinates>,
    pub last_updated: Option<String>,
}

#[verifier::ext_equal]
pub ghost struct ParkingView {
    pub id: Option<Seq<char>>,
    pub name: Option<Seq<char>>,
    pub alias: Option<Seq<char>>,
    pub building_id: Option<Seq<char>>,
    pub description: Option<Seq<char>>,
    pub campus: Option<Seq<char>>,
    pub address: Option<Seq<char>>,
    pub coordinates: Option<CoordinatesView>,
    pub last_updated: Option<Seq<char>>,
}

impl View for Parking {
    type V = ParkingView;

    open spec fn view(&self) -> ParkingView {
        ParkingView {
            id: self.id.deep_view(),
            name: self.name.deep_view(),
            alias: self.alias.deep_view(),
            building_id: self.building_id.deep_view(),
            description: self.description.deep_view(),
            campus: self.campus.deep_view(),
            address: self.address.deep_view(),
            coordinates: self.coordinates.deep_view(),
            last_updated: self.last_updated.deep_view(),
        }
    }
}

impl DeepView for Parking {
    type V = ParkingView;

    open spec fn deep_view(&self) -> ParkingView {
        self.view()
    }
}

/// A latitude/longitude pair, each kept as the number's literal text.
#[derive(Debug, Clone, PartialEq, Default)]
pub struct Coordinates {
    pub latitude: Option<JsonNumber>,
    pub longitude: Option<JsonNumber>,
}

#[verifier::ext_equal]
pub ghost struct CoordinatesView {
    pub latitude: Option<Seq<char>>,
    pub longitude: Option<Seq<char>>,
}

impl View for Coordinates {
    type V = CoordinatesView;

    open spec fn view(&self) -> CoordinatesView {
        CoordinatesView {
            latitude: self.latitude.deep_view(),
            longitude: self.longitude.deep_view(),
        }
    }
}

impl DeepView for Coordinates {
    type V = CoordinatesView;

    open spec fn deep_view(&self) -> CoordinatesView {
        self.view()
    }
}

} // verus!
