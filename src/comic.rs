use vstd::prelude::*;
use vstd::string::StringExecFns;

use crate::config::OutFormat;
use crate::decimal::{decimal, push_decimal};
use crate::error::ComicError;
use crate::json::{
    fields_view, json_object_members, json_string_literal, parse_object, quote, JsonField,
    JsonItem, JsonItemView,
};

verus! {

/// The value of the first member of `fields`, from index `i` on, whose key is `key`.
pub open spec fn member_from(fields: Seq<(Seq<char>, JsonItemView)>, key: Seq<char>, i: int) -> Option<
    JsonItemView,
>
    decreases fields.len() - i,
{
    if 0 <= i < fields.len() {
        if fields[i].0 == key {
            Some(fields[i].1)
        } else {
            member_from(fields, key, i + 1)
        }
    } else {
        None
    }
}

/// The string held by member `key`, where there is one and it is a string.
pub open spec fn text_member(fields: Seq<(Seq<char>, JsonItemView)>, key: Seq<char>) -> Option<
    Seq<char>,
> {
    match member_from(fields, key, 0) {
        Some(JsonItemView::Text(s)) => Some(s),
        _ => None,
    }
}

/// The count held by member `key`, where there is one and it is an integer
/// that fits in `usize`.
pub open spec fn count_member(fields: Seq<(Seq<char>, JsonItemView)>, key: Seq<char>) -> Option<
    usize,
> {
    match member_from(fields, key, 0) {
        Some(JsonItemView::Number(Some(n))) => if n <= usize::MAX {
            Some(n as usize)
        } else {
            None
        },
        _ => None,
    }
}

/// The model of a [`ComicResponse`].
pub struct ResponseView {
    pub month: Seq<char>,
    pub num: usize,
    pub link: Seq<char>,
    pub year: Seq<char>,
    pub news: Seq<char>,
    pub safe_title: Seq<char>,
    pub transcript: Seq<char>,
    pub alt: Seq<char>,
    pub img: Seq<char>,
    pub title: Seq<char>,
    pub day: Seq<char>,
}

/// The response record that the members of a JSON object make, where every
/// required member is present with a value of its type.
pub open spec fn response_of(m: Seq<(Seq<char>, JsonItemView)>) -> Option<ResponseView> {
    if text_member(m, "month"@) is Some && count_member(m, "num"@) is Some && text_member(
        m,
        "link"@,
    ) is Some && text_member(m, "year"@) is Some && text_member(m, "news"@) is Some
        && text_member(m, "safe_title"@) is Some && text_member(m, "transcript"@) is Some
        && text_member(m, "alt"@) is Some && text_member(m, "img"@) is Some && text_member(
        m,
        "title"@,
    ) is Some && text_member(m, "day"@) is Some {
        Some(
            ResponseView {
                month: text_member(m, "month"@).unwrap(),
                num: count_member(m, "num"@).unwrap(),
                link: text_member(m, "link"@).unwrap(),
                year: text_member(m, "year"@).unwrap(),
                news: text_member(m, "news"@).unwrap(),
                safe_title: text_member(m, "safe_title"@).unwrap(),
                transcript: text_member(m, "transcript"@).unwrap(),
                alt: text_member(m, "alt"@).unwrap(),
                img: text_member(m, "img"@).unwrap(),
                title: text_member(m, "title"@).unwrap(),
                day: text_member(m, "day"@).unwrap(),
            },
        )
    } else {
        None
    }
}

/// The response record that a body of text decodes to, if any.
pub open spec fn decoded(text: Seq<char>) -> Option<ResponseView> {
    match json_object_members(text) {
        Some(m) => response_of(m),
        None => None,
    }
}

/// The metadata of one comic, as the API sends it.
#[derive(Debug, Clone, PartialEq, Eq)]
pub struct ComicResponse {
    pub month: String,
    pub num: usize,
    pub link: String,
    pub year: String,
    pub news: String,
    pub safe_title: String,
    pub transcript: String,
    pub alt: String,
    pub img: String,
    pub title: String,
    pub day: String,
}

impl View for ComicResponse {
    type V = ResponseView;

    open spec fn view(&self) -> ResponseView {
        ResponseView {
            month: self.month@,
            num: self.num,
            link: self.link@,
            year: self.year@,
            news: self.news@,
            safe_title: self.safe_title@,
            transcript: self.transcript@,
            alt: self.alt@,
            img: self.img@,
            title: self.title@,
            day: self.day@,
        }
    }
}

fn find_member<'a>(fields: &'a Vec<JsonField>, key: &str) -> (r: Option<&'a JsonItem>)
    ensures
        match r {
            Some(item) => member_from(fields_view(fields@), key@, 0) == Some(item@),
            None => member_from(fields_view(fields@), key@, 0) is None,
        },
{
    let wanted = String::from_str(key);
    let mut i: usize = 0;
    while i < fields.len()
        invariant
            i <= fields@.len(),
            wanted@ == key@,
            member_from(fields_view(fields@), key@, 0) == member_from(
                fields_view(fields@),
                key@,
                i as int,
            ),
        decreases fields.len() - i,
    {
        if fields[i].key == wanted {
            return Some(&fields[i].item);
        }
        i += 1;
    }
    None
}

fn text_of(fields: &Vec<JsonField>, key: &str) -> (r: Option<String>)
    ensures
        match r {
            Some(s) => text_member(fields_view(fields@), key@) == Some(s@),
            None => text_member(fields_view(fields@), key@) is None,
        },
{
    match find_member(fields, key) {
        Some(JsonItem::Text(s)) => Some(s.clone()),
        _ => None,
    }
}

fn count_of(fields: &Vec<JsonField>, key: &str) -> (r: Option<usize>)
    ensures
        r == count_member(fields_view(fields@), key@),
{
    match find_member(fields, key) {
        Some(JsonItem::Number(Some(n))) => if *n <= usize::MAX as u64 {
            Some(*n as usize)
        } else {
            None
        },
        _ => None,
    }
}

impl ComicResponse {
    /// The record that the members of a JSON object make: `None` where a
    /// required member is missing or holds a value of another type.
    pub fn from_members(fields: &Vec<JsonField>) -> (r: Option<ComicResponse>)
        ensures
            match r {
                Some(c) => response_of(fields_view(fields@)) == Some(c@),
                None => response_of(fields_view(fields@)) is None,
            },
    {
        let month = match text_of(fields, "month") {
            Some(s) => s,
            None => return None,
        };
        let num = match count_of(fields, "num") {
            Some(n) => n,
            None => return None,
        };
        let link = match text_of(fields, "link") {
            Some(s) => s,
            None => return None,
        };
        let year = match text_of(fields, "year") {
            Some(s) => s,
            None => return None,
        };
        let news = match text_of(fields, "news") {
            Some(s) => s,
            None => return None,
        };
        let safe_title = match text_of(fields, "safe_title") {
            Some(s) => s,
            None => return None,
        };
        let transcript = match text_of(fields, "transcript") {
            Some(s) => s,
            None => return None,
        };
        let alt = match text_of(fields, "alt") {
            Some(s) => s,
            None => return None,
        };
        let img = match text_of(fields, "img") {
            Some(s) => s,
            None => return None,
        };
        let title = match text_of(fields, "title") {
            Some(s) => s,
            None => return None,
        };
        let day = match text_of(fields, "day") {
            Some(s) => s,
            None => return None,
        };
        Some(
            ComicResponse {
                month,
                num,
                link,
                year,
                news,
                safe_title,
                transcript,
                alt,
                img,
                title,
                day,
            },
        )
    }

    /// Decodes a response body: it must be a JSON object with every required
    /// member; members of other names are ignored.
    pub fn try_from(json: String) -> (r: Result<ComicResponse, ComicError>)
        ensures
            match r {
                Ok(c) => decoded(json@) == Some(c@),
                Err(e) => e == ComicError::Decode && decoded(json@) is None,
            },
    {
        match parse_object(json.as_str()) {
            Ok(fields) => match ComicResponse::from_members(&fields) {
                Some(c) => Ok(c),
                None => Err(ComicError::Decode),
            },
            Err(_) => Err(ComicError::Decode),
        }
    }
}

/// The model of a [`Comic`].
pub struct ComicView {
    pub title: Seq<char>,
    pub num: usize,
    pub date: Seq<char>,
    pub description: Seq<char>,
    pub image_url: Seq<char>,
}

/// The comic that a response record maps to: its date is year, month and day
/// joined by hyphens, as sent.
pub open spec fn comic_of(r: ResponseView) -> ComicView {
    ComicView {
        title: r.title,
        num: r.num,
        date: r.year + "-"@ + r.month + "-"@ + r.day,
        description: r.alt,
        image_url: r.img,
    }
}

/// One labelled line of the text block.
pub open spec fn text_line(label: Seq<char>, value: Seq<char>) -> Seq<char> {
    label + value + "\n"@
}

/// The five-line text block of a comic.
pub open spec fn text_block(c: ComicView) -> Seq<char> {
    text_line("Title: "@, c.title) + text_line("Comic No: "@, decimal(c.num as nat)) + text_line(
        "Date: "@,
        c.date,
    ) + text_line("Description: "@, c.description) + text_line("Image: "@, c.image_url)
}

/// The one-line JSON object of a comic.
pub open spec fn json_object(c: ComicView) -> Seq<char> {
    "{\"title\":"@ + json_string_literal(c.title) + ",\"num\":"@ + decimal(c.num as nat)
        + ",\"date\":"@ + json_string_literal(c.date) + ",\"description\":"@
        + json_string_literal(c.description) + ",\"image_url\":"@ + json_string_literal(
        c.image_url,
    ) + "}"@
}

/// What is written to standard output for a comic in a format.
pub open spec fn rendered(c: ComicView, of: OutFormat) -> Seq<char> {
    match of {
        OutFormat::Text => text_block(c),
        OutFormat::Json => json_object(c) + "\n"@,
    }
}

/// The metadata of one comic, as presented.
#[derive(Debug, Clone, PartialEq, Eq)]
pub struct Comic {
    pub title: String,
    pub num: usize,
    pub date: String,
    pub description: String,
    pub image_url: String,
}

impl View for Comic {
    type V = ComicView;

    open spec fn view(&self) -> ComicView {
        ComicView {
            title: self.title@,
            num: self.num,
            date: self.date@,
            description: self.description@,
            image_url: self.image_url@,
        }
    }
}

impl Comic {
    /// A comic from its fields.
    pub fn new(title: String, num: usize, date: String, description: String, image_url: String) -> (r:
        Comic)
        ensures
            r == (Comic { title, num, date, description, image_url }),
    {
        Comic { title, num, date, description, image_url }
    }

    /// The comic that a response record describes.
    pub fn from(cr: ComicResponse) -> (r: Comic)
        ensures
            r@ == comic_of(cr@),
    {
        let mut date = cr.year;
        date.append("-");
        date.append(cr.month.as_str());
        date.append("-");
        date.append(cr.day.as_str());
        Comic { title: cr.title, num: cr.num, date, description: cr.alt, image_url: cr.img }
    }

    /// The five-line text block: title, number, date, description and image
    /// URL, each labelled on a line of its own.
    pub fn to_text(&self) -> (r: String)
        ensures
            r@ == text_block(self@),
    {
        let mut s = String::new();
        s.append("Title: ");
        s.append(self.title.as_str());
        s.append("\n");
        s.append("Comic No: ");
        push_decimal(&mut s, self.num);
        s.append("\n");
        s.append("Date: ");
        s.append(self.date.as_str());
        s.append("\n");
        s.append("Description: ");
        s.append(self.description.as_str());
        s.append("\n");
        s.append("Image: ");
        s.append(self.image_url.as_str());
        s.append("\n");
        proof {
            assert(s@ =~= text_block(self@));
        }
        s
    }

    /// The comic as one JSON object with the members `title`, `num`, `date`,
    /// `description` and `image_url`, in that order.
    pub fn to_json(&self) -> (r: String)
        ensures
            r@ == json_object(self@),
    {
        let mut s = String::new();
        s.append("{\"title\":");
        s.append(quote(&self.title).as_str());
        s.append(",\"num\":");
        push_decimal(&mut s, self.num);
        s.append(",\"date\":");
        s.append(quote(&self.date).as_str());
        s.append(",\"description\":");
        s.append(quote(&self.description).as_str());
        s.append(",\"image_url\":");
        s.append(quote(&self.image_url).as_str());
        s.append("}");
        proof {
            assert(s@ =~= json_object(self@));
        }
        s
    }

    /// What is written to standard output for this comic in format `of`: the
    /// text block, or the JSON object followed by a newline.
    pub fn render(&self, of: OutFormat) -> (r: String)
        ensures
            r@ == rendered(self@, of),
    {
        match of {
            OutFormat::Text => self.to_text(),
            OutFormat::Json => {
                let mut s = self.to_json();
                s.append("\n");
                s
            },
        }
    }
}

/// Whether some required member is absent from an object.
pub open spec fn lacks_required_member(m: Seq<(Seq<char>, JsonItemView)>) -> bool {
    member_from(m, "month"@, 0) is None || member_from(m, "num"@, 0) is None || member_from(
        m,
        "link"@,
        0,
    ) is None || member_from(m, "year"@, 0) is None || member_from(m, "news"@, 0) is None
        || member_from(m, "safe_title"@, 0) is None || member_from(m, "transcript"@, 0) is None
        || member_from(m, "alt"@, 0) is None || member_from(m, "img"@, 0) is None || member_from(
        m,
        "title"@,
        0,
    ) is None || member_from(m, "day"@, 0) is None
}

/// A body that conforms to the response shape yields a comic whose date is
/// the `year`, `month` and `day` members joined by hyphens, verbatim, and
/// whose title, number, description and image URL are the `title`, `num`,
/// `alt` and `img` members unchanged.
pub proof fn decoding_keeps_members(text: Seq<char>)
    requires
        json_object_members(text) is Some,
        response_of(json_object_members(text).unwrap()) is Some,
    ensures
        ({
            let m = json_object_members(text).unwrap();
            let c = comic_of(decoded(text).unwrap());
            &&& decoded(text) is Some
            &&& c.date == text_member(m, "year"@).unwrap() + "-"@ + text_member(m, "month"@).unwrap()
                + "-"@ + text_member(m, "day"@).unwrap()
            &&& c.title == text_member(m, "title"@).unwrap()
            &&& Some(c.num) == count_member(m, "num"@)
            &&& c.description == text_member(m, "alt"@).unwrap()
            &&& c.image_url == text_member(m, "img"@).unwrap()
        }),
{
}

/// A body that is not a JSON object, or whose object lacks a required
/// member, decodes to no response, and so to no comic.
pub proof fn malformed_body_is_rejected(text: Seq<char>)
    requires
        json_object_members(text) matches Some(m) ==> lacks_required_member(m),
    ensures
        decoded(text) is None,
{
}

/// The number of line breaks in `s`.
pub open spec fn newline_count(s: Seq<char>) -> nat
    decreases s.len(),
{
    if s.len() == 0 {
        0
    } else {
        newline_count(s.drop_last()) + if s.last() == '\n' {
            1nat
        } else {
            0nat
        }
    }
}

/// Whether `s` holds no line break.
pub open spec fn single_line(s: Seq<char>) -> bool {
    forall|i: int| 0 <= i < s.len() ==> s[i] != '\n'
}

proof fn lemma_newline_count_concat(a: Seq<char>, b: Seq<char>)
    ensures
        newline_count(a + b) == newline_count(a) + newline_count(b),
    decreases b.len(),
{
    if b.len() == 0 {
        assert(a + b =~= a);
    } else {
        lemma_newline_count_concat(a, b.drop_last());
        assert((a + b).drop_last() =~= a + b.drop_last());
    }
}

proof fn lemma_single_line_count(s: Seq<char>)
    requires
        single_line(s),
    ensures
        newline_count(s) == 0,
    decreases s.len(),
{
    if s.len() > 0 {
        lemma_single_line_count(s.drop_last());
    }
}

proof fn lemma_decimal_single_line(n: nat)
    ensures
        single_line(decimal(n)),
    decreases n,
{
    if n >= 10 {
        lemma_decimal_single_line(n / 10);
    }
}

proof fn lemma_text_line_count(label: Seq<char>, value: Seq<char>)
    requires
        single_line(label),
        single_line(value),
    ensures
        newline_count(text_line(label, value)) == 1,
{
    reveal_strlit("\n");
    lemma_single_line_count(label);
    lemma_single_line_count(value);
    lemma_newline_count_concat(label, value);
    lemma_newline_count_concat(label + value, "\n"@);
    assert("\n"@.drop_last() =~= Seq::<char>::empty());
    assert(newline_count(Seq::<char>::empty()) == 0);
    assert(newline_count("\n"@) == 1);
}

/// The text block of a comic whose fields hold no line break is exactly
/// five lines, each ended by a line break: it is a function of the comic
/// alone, so rendering one comic twice gives the same bytes.
pub proof fn text_block_is_five_lines(c: ComicView)
    requires
        single_line(c.title),
        single_line(c.date),
        single_line(c.description),
        single_line(c.image_url),
    ensures
        newline_count(text_block(c)) == 5,
        text_block(c).len() > 0,
        text_block(c).last() == '\n',
{
    reveal_strlit("Title: ");
    reveal_strlit("Comic No: ");
    reveal_strlit("Date: ");
    reveal_strlit("Description: ");
    reveal_strlit("Image: ");
    reveal_strlit("\n");
    lemma_decimal_single_line(c.num as nat);
    let l1 = text_line("Title: "@, c.title);
    let l2 = text_line("Comic No: "@, decimal(c.num as nat));
    let l3 = text_line("Date: "@, c.date);
    let l4 = text_line("Description: "@, c.description);
    let l5 = text_line("Image: "@, c.image_url);
    lemma_text_line_count("Title: "@, c.title);
    lemma_text_line_count("Comic No: "@, decimal(c.num as nat));
    lemma_text_line_count("Date: "@, c.date);
    lemma_text_line_count("Description: "@, c.description);
    lemma_text_line_count("Image: "@, c.image_url);
    lemma_newline_count_concat(l1, l2);
    lemma_newline_count_concat(l1 + l2, l3);
    lemma_newline_count_concat(l1 + l2 + l3, l4);
    lemma_newline_count_concat(l1 + l2 + l3 + l4, l5);
}

} // verus!
