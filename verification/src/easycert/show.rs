//! Showing what a certificate says.

use vstd::prelude::*;
use vstd::string::{StrSliceExecFns, StringExecFns};
use vstd::utf8::encode_utf8;
use x509_parser::time::ASN1Time;
use crate::text::{blank, spaces, texts};

verus! {

/// Which certificate is to be shown.
pub struct Show {
    /// The path of the certificate.
    pub cert_path: String,
    pub no_color: bool,
}

/// A time: nanoseconds from the beginning of 1970, and the seconds by which its
/// offset is ahead of UTC.
#[derive(Clone, Copy, PartialEq, Eq, Structural, Debug)]
pub struct CertTime {
    pub unix_nanos: i128,
    pub offset: i32,
}

/// What a certificate says. The other names of its subject may be malformed.
pub struct CertInfo {
    pub is_ca: bool,
    pub issuer: String,
    pub sans: Result<Vec<String>, String>,
    pub subject: String,
    pub not_before: CertTime,
    pub not_after: CertTime,
}

/// What a certificate says, as mathematical values.
pub struct CertInfoView {
    pub is_ca: bool,
    pub issuer: Seq<char>,
    pub sans: Result<Seq<Seq<char>>, Seq<char>>,
    pub subject: Seq<char>,
    pub not_before: CertTime,
    pub not_after: CertTime,
}

impl CertInfo {
    /// The information as mathematical values.
    pub open spec fn view(&self) -> CertInfoView {
        CertInfoView {
            is_ca: self.is_ca,
            issuer: self.issuer@,
            sans: match self.sans {
                Ok(sans) => Ok(texts(sans@)),
                Err(message) => Err(message@),
            },
            subject: self.subject@,
            not_before: self.not_before,
            not_after: self.not_after,
        }
    }
}

/// Why a certificate cannot be shown.
pub enum ShowError {
    Pem,
    Der(String),
    San(String),
    Time(String),
}

/// Why a certificate cannot be shown, as mathematical values.
pub enum ShowErrorView {
    Pem,
    Der(Seq<char>),
    San(Seq<char>),
    Time(Seq<char>),
}

impl ShowError {
    /// The error as mathematical values.
    pub open spec fn view(&self) -> ShowErrorView {
        match self {
            ShowError::Pem => ShowErrorView::Pem,
            ShowError::Der(message) => ShowErrorView::Der(message@),
            ShowError::San(message) => ShowErrorView::San(message@),
            ShowError::Time(message) => ShowErrorView::Time(message@),
        }
    }

    /// What the error says.
    pub fn message(&self) -> (r: String)
        ensures
            r@ == match self@ {
                ShowErrorView::Pem => "Failed to parse pem"@,
                ShowErrorView::Der(message) => message,
                ShowErrorView::San(message) => message,
                ShowErrorView::Time(message) => message,
            },
    {
        match self {
            ShowError::Pem => "Failed to parse pem".to_owned(),
            ShowError::Der(message) => message.clone(),
            ShowError::San(message) => message.clone(),
            ShowError::Time(message) => message.clone(),
        }
    }
}

/// The content of the first section that `pem` finds in a text.
pub uninterp spec fn pem_content(text: Seq<char>) -> Option<Seq<u8>>;

/// Calls `pem::parse` and takes the content of the section. What comes out depends
/// on the text alone.
#[verifier::external_body]
fn parse_pem(text: &str) -> (r: Option<Vec<u8>>)
    ensures
        match r {
            Some(content) => pem_content(text@) == Some(content@),
            None => pem_content(text@) is None,
        },
{
    pem::parse(text).ok().map(|section| section.into_contents())
}

/// What `x509_parser` reads in a certificate, or the message of its error.
pub uninterp spec fn cert_info(der: Seq<u8>) -> Result<CertInfoView, Seq<char>>;

/// Calls `x509_parser::parse_x509_certificate` and takes what the certificate says
/// as plain values, where no other names of the subject are an empty list. What
/// comes out depends on the bytes alone.
#[verifier::external_body]
fn parse_cert(der: &[u8]) -> (r: Result<CertInfo, String>)
    ensures
        match r {
            Ok(info) => cert_info(der@) == Ok::<CertInfoView, Seq<char>>(info@),
            Err(message) => cert_info(der@) == Err::<CertInfoView, Seq<char>>(message@),
        },
{
    let (_, cert) = x509_parser::parse_x509_certificate(der).map_err(|e| e.to_string())?;
    let time = |t: ASN1Time| CertTime {
        unix_nanos: t.to_datetime().unix_timestamp_nanos(),
        offset: t.to_datetime().offset().whole_seconds(),
    };
    let sans = cert.subject_alternative_name().map_err(|e| e.to_string()).map(|found| found.map(
        |ext| ext.value.general_names.iter().map(|name| name.to_string()).collect()).unwrap_or_default());
    Ok(CertInfo {
        is_ca: cert.is_ca(), issuer: cert.issuer().to_string(), sans, subject: cert.subject().to_string(),
        not_before: time(cert.validity().not_before), not_after: time(cert.validity().not_after),
    })
}

/// How a time is written: the date, the time of day and the offset, down to the
/// second.
pub const TIME_FORMAT: &'static str = "[year]-[month]-[day] [hour]:[minute]:[second] [offset_hour sign:mandatory]:[offset_minute]:[offset_second]";

/// The text of a time in a format of `time`, or the message of its error.
pub uninterp spec fn time_text(time: CertTime, format: Seq<char>) -> Result<Seq<char>, Seq<char>>;

/// Calls `OffsetDateTime::format` on a time, with the description that a format is. A
/// time that `time` cannot hold, or a format that is no description, gives the error
/// of the crate. What comes out depends on the time and on the format alone.
#[verifier::external_body]
fn format_time(time: CertTime, format: &str) -> (r: Result<String, String>)
    ensures
        match r {
            Ok(text) => time_text(time, format@) == Ok::<Seq<char>, Seq<char>>(text@),
            Err(message) => time_text(time, format@) == Err::<Seq<char>, Seq<char>>(message@),
        },
{
    let description = time::format_description::parse(format).map_err(|e| e.to_string())?;
    let utc = time::OffsetDateTime::from_unix_timestamp_nanos(time.unix_nanos);
    let offset = time::UtcOffset::from_whole_seconds(time.offset).map_err(|e| e.to_string())?;
    let there = utc.map_err(|e| e.to_string())?.checked_to_offset(offset);
    let there = there.ok_or(time::error::ConversionRange).map_err(|e| e.to_string())?;
    there.format(&description).map_err(|e| e.to_string())
}

/// Texts with commas between them.
pub open spec fn joined(list: Seq<Seq<char>>) -> Seq<char>
    decreases list.len(),
{
    if list.len() == 0 {
        Seq::empty()
    } else if list.len() == 1 {
        list[0]
    } else {
        joined(list.drop_last()) + ", "@ + list.last()
    }
}

/// Puts commas between texts.
pub fn join(list: &Vec<String>) -> (r: String)
    ensures
        r@ == joined(texts(list@)),
{
    let mut r = String::new();
    let mut i: usize = 0;
    assert(texts(list@).take(0) =~= Seq::empty());
    while i < list.len()
        invariant
            i <= list@.len(),
            r@ == joined(texts(list@).take(i as int)),
        decreases list@.len() - i,
    {
        let ghost all = texts(list@);
        proof {
            assert(all.take(i + 1).drop_last() =~= all.take(i as int));
            assert(all.take(i + 1).last() == list@[i as int]@);
        }
        if i > 0 {
            r.append(", ");
        }
        r.append(list[i].as_str());
        proof {
            if i == 0 {
                assert(r@ =~= all.take(1)[0]);
            }
        }
        i = i + 1;
    }
    assert(texts(list@).take(i as int) =~= texts(list@));
    r
}

/// The word for an answer.
pub open spec fn yes_no(b: bool) -> Seq<char> {
    if b {
        "yes"@
    } else {
        "no"@
    }
}

fn yes_no_text(b: bool) -> (r: String)
    ensures
        r@ == yes_no(b),
{
    if b {
        "yes".to_owned()
    } else {
        "no".to_owned()
    }
}

/// Whether a certificate is good at a time, the ends of its validity included.
pub open spec fn is_valid_at(info: CertInfoView, now: i128) -> bool {
    info.not_before.unix_nanos <= now <= info.not_after.unix_nanos
}

/// Rows of names and values, as mathematical values.
pub open spec fn row_views(rows: Seq<(String, String)>) -> Seq<(Seq<char>, Seq<char>)> {
    rows.map_values(|row: (String, String)| (row.0@, row.1@))
}

/// What is shown of a certificate.
pub open spec fn shown_rows(
    info: CertInfoView,
    sans: Seq<Seq<char>>,
    not_before: Seq<char>,
    not_after: Seq<char>,
    now: i128,
) -> Seq<(Seq<char>, Seq<char>)> {
    seq![
        ("Is CA"@, yes_no(info.is_ca)),
        ("Issuer"@, info.issuer),
        ("SAN"@, joined(sans)),
        ("Subject"@, info.subject),
        ("Not Before"@, not_before),
        ("Not After"@, not_after),
        ("Is Valid"@, yes_no(is_valid_at(info, now))),
    ]
}

/// A table of names and values.
pub struct Table {
    rows: Vec<(String, String)>,
}

/// The number of bytes of a text.
pub open spec fn byte_len(s: Seq<char>) -> nat {
    encode_utf8(s).len()
}

/// The length of the longest name, in bytes.
pub open spec fn longest(rows: Seq<(Seq<char>, Seq<char>)>) -> nat
    decreases rows.len(),
{
    if rows.len() == 0 {
        0
    } else {
        let front = longest(rows.drop_last());
        let last = byte_len(rows.last().0);
        if front < last {
            last
        } else {
            front
        }
    }
}

/// The lines of a table whose names are shown as `shown`: each name behind blanks
/// that make up for its length, then its value.
pub open spec fn table_text(
    rows: Seq<(Seq<char>, Seq<char>)>,
    shown: Seq<Seq<char>>,
    width: nat,
) -> Seq<char>
    decreases rows.len(),
{
    if rows.len() == 0 {
        Seq::empty()
    } else {
        table_text(rows.drop_last(), shown, width) + spaces(
            (width - byte_len(rows.last().0)) as nat,
        ) + shown[rows.len() - 1] + "  "@ + rows.last().1 + "\n"@
    }
}

/// The names of rows.
pub open spec fn row_names(rows: Seq<(Seq<char>, Seq<char>)>) -> Seq<Seq<char>> {
    rows.map_values(|row: (Seq<char>, Seq<char>)| row.0)
}

/// Calls `console::style` for blue and bold text, and writes it: the text alone, or in
/// blue and bold and with a reset behind it. Which of the two it is depends on the
/// terminal and the environment.
#[verifier::external_body]
fn styled(name: &str) -> (r: String)
    ensures
        is_dressed(r@, name@),
{
    console::style(name).blue().bold().to_string()
}

/// `s` is `name`, or `name` in blue and bold for a terminal.
pub open spec fn is_dressed(s: Seq<char>, name: Seq<char>) -> bool {
    s == name || s == "\u{1b}[34m\u{1b}[1m"@ + name + "\u{1b}[0m"@
}

proof fn lemma_longest(rows: Seq<(Seq<char>, Seq<char>)>, k: int)
    requires
        0 <= k < rows.len(),
    ensures
        byte_len(rows[k].0) <= longest(rows),
    decreases rows.len(),
{
    if k < rows.len() - 1 {
        lemma_longest(rows.drop_last(), k);
        assert(rows.drop_last()[k] == rows[k]);
    }
}

impl Table {
    /// The rows.
    pub closed spec fn view(&self) -> Seq<(Seq<char>, Seq<char>)> {
        row_views(self.rows@)
    }

    /// A table without rows.
    pub fn new() -> (r: Self)
        ensures
            r@ == Seq::<(Seq<char>, Seq<char>)>::empty(),
    {
        let r = Table { rows: Vec::new() };
        assert(r@ =~= Seq::empty());
        r
    }

    /// Puts a row at the end.
    pub fn push(&mut self, name: &str, value: String)
        ensures
            final(self)@ == old(self)@.push((name@, value@)),
    {
        let ghost before = self@;
        self.rows.push((name.to_owned(), value));
        assert(self@ =~= before.push((name@, value@)));
    }

    /// The rows.
    pub fn rows(&self) -> (r: &Vec<(String, String)>)
        ensures
            row_views(r@) == self@,
    {
        &self.rows
    }

    /// The length of the longest name, in bytes.
    pub fn name_width(&self) -> (r: usize)
        ensures
            r == longest(self@),
    {
        let mut width: usize = 0;
        let mut i: usize = 0;
        assert(self@.take(0) =~= Seq::empty());
        while i < self.rows.len()
            invariant
                i <= self.rows@.len(),
                width == longest(self@.take(i as int)),
            decreases self.rows@.len() - i,
        {
            proof {
                assert(self@.take(i + 1).drop_last() =~= self@.take(i as int));
                assert(self@.take(i + 1).last() == self@[i as int]);
                assert(self@[i as int] == (self.rows@[i as int].0@, self.rows@[i as int].1@));
            }
            let len: usize = self.rows[i].0.as_str().as_bytes().len();
            if width < len {
                width = len;
            }
            i = i + 1;
        }
        assert(self@.take(i as int) =~= self@);
        width
    }

    /// The lines of the table, with the names shown as given.
    pub fn render(&self, shown: &Vec<String>) -> (r: String)
        requires
            shown@.len() == self@.len(),
        ensures
            r@ == table_text(self@, texts(shown@), longest(self@)),
    {
        let width: usize = self.name_width();
        let mut r = String::new();
        let mut i: usize = 0;
        assert(self@.take(0) =~= Seq::empty());
        while i < self.rows.len()
            invariant
                i <= self.rows@.len(),
                width == longest(self@),
                shown@.len() == self@.len(),
                r@ == table_text(self@.take(i as int), texts(shown@), width as nat),
            decreases self.rows@.len() - i,
        {
            proof {
                assert(self@.take(i + 1).drop_last() =~= self@.take(i as int));
                assert(self@.take(i + 1).last() == self@[i as int]);
                assert(self@[i as int] == (self.rows@[i as int].0@, self.rows@[i as int].1@));
                lemma_longest(self@, i as int);
                assert(texts(shown@)[i as int] == shown@[i as int]@);
            }
            let len: usize = self.rows[i].0.as_str().as_bytes().len();
            r.append(blank(width - len).as_str());
            r.append(shown[i].as_str());
            r.append("  ");
            r.append(self.rows[i].1.as_str());
            r.append("\n");
            i = i + 1;
        }
        assert(self@.take(i as int) =~= self@);
        r
    }

    /// The lines of the table. Where names are styled, each of them stands in its
    /// place in blue and bold if the terminal can show that.
    pub fn write_human_readable(&self, is_styled: bool) -> (r: String)
        ensures
            written(self@, is_styled, r@),
    {
        let mut shown: Vec<String> = Vec::new();
        let mut i: usize = 0;
        while i < self.rows.len()
            invariant
                i <= self.rows@.len(),
                shown@.len() == i,
                forall|k: int|
                    #![trigger shown@[k]]
                    0 <= k < i ==> (if is_styled {
                        is_dressed(shown@[k]@, self@[k].0)
                    } else {
                        shown@[k]@ == self@[k].0
                    }),
            decreases self.rows@.len() - i,
        {
            let name = self.rows[i].0.as_str();
            assert(self@[i as int].0 == name@);
            if is_styled {
                shown.push(styled(name));
            } else {
                shown.push(name.to_owned());
            }
            i = i + 1;
        }
        proof {
            if !is_styled {
                assert(texts(shown@) =~= row_names(self@));
            } else {
                assert forall|k: int| 0 <= k < texts(shown@).len() implies is_dressed(
                    #[trigger] texts(shown@)[k],
                    self@[k].0,
                ) by {
                    assert(texts(shown@)[k] == shown@[k]@);
                }
            }
        }
        self.render(&shown)
    }
}

/// The table of what a certificate says, given its other names and the texts of
/// the ends of its validity.
pub fn cert_table(
    info: &CertInfo,
    sans: &Vec<String>,
    not_before: String,
    not_after: String,
    now: i128,
) -> (r: Table)
    ensures
        r@ == shown_rows(info@, texts(sans@), not_before@, not_after@, now),
{
    let mut table = Table::new();
    table.push("Is CA", yes_no_text(info.is_ca));
    table.push("Issuer", info.issuer.clone());
    table.push("SAN", join(sans));
    table.push("Subject", info.subject.clone());
    table.push("Not Before", not_before);
    table.push("Not After", not_after);
    table.push(
        "Is Valid",
        yes_no_text(info.not_before.unix_nanos <= now && now <= info.not_after.unix_nanos),
    );
    assert(table@ =~= shown_rows(info@, texts(sans@), not_before@, not_after@, now));
    table
}

/// What is shown of the certificate in a PEM text, or the first error.
pub open spec fn shown(text: Seq<char>, now: i128) -> Result<
    Seq<(Seq<char>, Seq<char>)>,
    ShowErrorView,
> {
    match pem_content(text) {
        None => Err(ShowErrorView::Pem),
        Some(der) => match cert_info(der) {
            Err(message) => Err(ShowErrorView::Der(message)),
            Ok(info) => match info.sans {
                Err(message) => Err(ShowErrorView::San(message)),
                Ok(sans) => match time_text(info.not_before, TIME_FORMAT@) {
                    Err(message) => Err(ShowErrorView::Time(message)),
                    Ok(not_before) => match time_text(info.not_after, TIME_FORMAT@) {
                        Err(message) => Err(ShowErrorView::Time(message)),
                        Ok(not_after) => Ok(shown_rows(info, sans, not_before, not_after, now)),
                    },
                },
            },
        },
    }
}

/// The table of what the certificate in a PEM text says, at a time in nanoseconds
/// from the beginning of 1970.
pub fn show_table(cert_content: &str, now: i128) -> (r: Result<Table, ShowError>)
    ensures
        match r {
            Ok(table) => shown(cert_content@, now) == Ok::<
                Seq<(Seq<char>, Seq<char>)>,
                ShowErrorView,
            >(table@),
            Err(e) => shown(cert_content@, now) == Err::<
                Seq<(Seq<char>, Seq<char>)>,
                ShowErrorView,
            >(e@),
        },
{
    let der = match parse_pem(cert_content) {
        Some(der) => der,
        None => {
            return Err(ShowError::Pem);
        },
    };
    let info = match parse_cert(der.as_slice()) {
        Ok(info) => info,
        Err(message) => {
            return Err(ShowError::Der(message));
        },
    };
    let sans = match &info.sans {
        Ok(sans) => sans,
        Err(message) => {
            return Err(ShowError::San(message.clone()));
        },
    };
    let not_before = match format_time(info.not_before, TIME_FORMAT) {
        Ok(text) => text,
        Err(message) => {
            return Err(ShowError::Time(message));
        },
    };
    let not_after = match format_time(info.not_after, TIME_FORMAT) {
        Ok(text) => text,
        Err(message) => {
            return Err(ShowError::Time(message));
        },
    };
    Ok(cert_table(&info, sans, not_before, not_after, now))
}

/// Whether a text is how rows are written, with their names styled or not.
pub open spec fn written(
    rows: Seq<(Seq<char>, Seq<char>)>,
    is_styled: bool,
    text: Seq<char>,
) -> bool {
    if is_styled {
        exists|shown: Seq<Seq<char>>|
            #![trigger table_text(rows, shown, longest(rows))]
            shown.len() == rows.len() && text == table_text(rows, shown, longest(rows)) && (forall|
                i: int,
            | 0 <= i < shown.len() ==> is_dressed(#[trigger] shown[i], rows[i].0))
    } else {
        text == table_text(rows, row_names(rows), longest(rows))
    }
}

impl Show {
    /// What is written of the certificate in a PEM text at a time, in nanoseconds
    /// from the beginning of 1970.
    pub fn run(&self, cert_content: &str, now: i128) -> (r: Result<String, ShowError>)
        ensures
            match shown(cert_content@, now) {
                Ok(rows) => r matches Ok(text) && written(rows, !self.no_color, text@),
                Err(error) => r matches Err(e) && e@ == error,
            },
    {
        match show_table(cert_content, now) {
            Ok(table) => Ok(table.write_human_readable(!self.no_color)),
            Err(e) => Err(e),
        }
    }
}

/// The names of a table end in one column: the blanks before a name and the name
/// take up as many bytes in every row.
pub proof fn law_names_end_in_one_column(rows: Seq<(Seq<char>, Seq<char>)>, k: int)
    requires
        0 <= k < rows.len(),
    ensures
        spaces((longest(rows) - byte_len(rows[k].0)) as nat).len() + byte_len(rows[k].0) == longest(
            rows,
        ),
{
    lemma_longest(rows, k);
}

/// What is shown of a certificate is what the certificate says, each thing in its row, and
/// it is valid exactly from the beginning of its validity to the end.
pub proof fn law_rows_say_what_the_certificate_says(
    info: &CertInfo,
    sans: &Vec<String>,
    not_before: String,
    not_after: String,
    now: i128,
    table: Table,
)
    requires
        call_ensures(cert_table, (info, sans, not_before, not_after, now), table),
    ensures
        table@.len() == 7,
        table@[0] == ("Is CA"@, if info.is_ca {
            seq!['y', 'e', 's']
        } else {
            seq!['n', 'o']
        }),
        table@[1] == ("Issuer"@, info.issuer@),
        table@[2].0 == "SAN"@,
        sans@.len() == 0 ==> table@[2].1 == Seq::<char>::empty(),
        sans@.len() == 1 ==> table@[2].1 == sans@[0]@,
        sans@.len() == 2 ==> table@[2].1 == sans@[0]@ + seq![',', ' '] + sans@[1]@,
        table@[3] == ("Subject"@, info.subject@),
        table@[4] == ("Not Before"@, not_before@),
        table@[5] == ("Not After"@, not_after@),
        table@[6] == ("Is Valid"@, if info.not_before.unix_nanos <= now
            <= info.not_after.unix_nanos {
            seq!['y', 'e', 's']
        } else {
            seq!['n', 'o']
        }),
{
    reveal_strlit("yes");
    reveal_strlit("no");
    reveal_strlit(", ");
    assert("yes"@ =~= seq!['y', 'e', 's']);
    assert("no"@ =~= seq!['n', 'o']);
    let all = texts(sans@);
    if sans@.len() == 1 {
        assert(all[0] == sans@[0]@);
    }
    if sans@.len() == 2 {
        assert(all.drop_last()[0] == sans@[0]@);
        assert(all.last() == sans@[1]@);
        assert(joined(all.drop_last()) == sans@[0]@);
        assert(", "@ =~= seq![',', ' ']);
    }
}

/// Joining is done text by text: one more text comes behind a comma and a blank, and the
/// joined text is as long as the texts and what stands between them.
pub proof fn law_joined_text_by_text(
    list: &Vec<String>,
    longer: &Vec<String>,
    more: String,
    r: String,
    s: String,
)
    requires
        call_ensures(join, (list,), r),
        call_ensures(join, (longer,), s),
        longer@ == list@.push(more),
    ensures
        list@.len() == 0 ==> r@ == Seq::<char>::empty() && s@ == more@,
        list@.len() > 0 ==> s@ == r@ + seq![',', ' '] + more@,
{
    reveal_strlit(", ");
    assert(", "@ =~= seq![',', ' ']);
    let all = texts(longer@);
    assert(all.drop_last() =~= texts(list@));
    assert(all.last() == more@);
}

/// What is shown is read in the certificate that the text holds, and shown as of the time
/// that was given. Where nothing can be shown, it is the first thing that failed that is
/// complained of.
pub proof fn law_shown_is_what_was_read(
    text: &str,
    now: i128,
    r: Result<Table, ShowError>,
    info: CertInfoView,
)
    requires
        call_ensures(show_table, (text, now), r),
    ensures
        pem_content(text@) is None <==> (r matches Err(e) && e is Pem),
        r matches Ok(table) ==> {
            &&& pem_content(text@) matches Some(der) && (cert_info(der) == Ok::<
                CertInfoView,
                Seq<char>,
            >(info) ==> {
                &&& table@.len() == 7
                &&& table@[0].1 == seq!['y', 'e', 's'] <==> info.is_ca
                &&& table@[1].1 == info.issuer
                &&& table@[3].1 == info.subject
                &&& time_text(info.not_before, TIME_FORMAT@) == Ok::<Seq<char>, Seq<char>>(
                    table@[4].1,
                )
                &&& time_text(info.not_after, TIME_FORMAT@) == Ok::<Seq<char>, Seq<char>>(
                    table@[5].1,
                )
                &&& table@[6].1 == seq!['y', 'e', 's'] <==> info.not_before.unix_nanos <= now
                    <= info.not_after.unix_nanos
            })
        },
        pem_content(text@) matches Some(der) ==> (cert_info(der) matches Err(message) ==> (r
            matches Err(ShowError::Der(said)) && said@ == message)),
        pem_content(text@) matches Some(der) ==> (cert_info(der) matches Ok(i) ==> (i.sans
            matches Err(message) ==> (r matches Err(ShowError::San(said)) && said@ == message))),
        pem_content(text@) matches Some(der) ==> (cert_info(der) matches Ok(i) ==> (i.sans is Ok
            && time_text(i.not_before, TIME_FORMAT@) is Ok && time_text(
            i.not_after,
            TIME_FORMAT@,
        ) is Ok ==> r is Ok)),
{
    reveal_strlit("yes");
    reveal_strlit("no");
    assert("no"@.len() != "yes"@.len());
    assert("yes"@ =~= seq!['y', 'e', 's']);
}

/// The ends of a validity are shown as dates with the time of day and the offset.
pub proof fn law_times_are_shown_to_the_second(
    text: &str,
    now: i128,
    table: Table,
    info: CertInfoView,
    der: Seq<u8>,
)
    requires
        call_ensures(show_table, (text, now), Ok::<Table, ShowError>(table)),
    ensures
        pem_content(text@) == Some(der) && cert_info(der) == Ok::<CertInfoView, Seq<char>>(info)
            ==> {
            let format =
                "[year]-[month]-[day] [hour]:[minute]:[second] [offset_hour sign:mandatory]:[offset_minute]:[offset_second]"@;
            &&& time_text(info.not_before, format) == Ok::<Seq<char>, Seq<char>>(table@[4].1)
            &&& time_text(info.not_after, format) == Ok::<Seq<char>, Seq<char>>(table@[5].1)
        },
{
}

/// A table has the rows that were put into it, in their order.
pub proof fn law_rows_stay_in_order(table: &mut Table, name: &str, value: String, i: int)
    requires
        call_ensures(Table::push, (table, name, value), ()),
    ensures
        final(table)@.len() == old(table)@.len() + 1,
        final(table)@.last() == (name@, value@),
        0 <= i < old(table)@.len() ==> final(table)@[i] == old(table)@[i],
{
}

/// No name of a table is longer than its width, and one of them is as long.
pub proof fn law_width_is_that_of_a_name(table: &Table, width: usize, k: int)
    requires
        call_ensures(Table::name_width, (table,), width),
    ensures
        0 <= k < table@.len() ==> encode_utf8(table@[k].0).len() <= width,
        table@.len() > 0 ==> exists|i: int|
            0 <= i < table@.len() && encode_utf8((#[trigger] table@[i]).0).len() == width,
        table@.len() == 0 ==> width == 0,
{
    if 0 <= k < table@.len() {
        lemma_longest(table@, k);
    }
    if table@.len() > 0 {
        lemma_longest_is_one(table@);
    }
}

proof fn lemma_longest_is_one(rows: Seq<(Seq<char>, Seq<char>)>)
    requires
        rows.len() > 0,
    ensures
        exists|i: int| 0 <= i < rows.len() && byte_len((#[trigger] rows[i]).0) == longest(rows),
    decreases rows.len(),
{
    let front = rows.drop_last();
    assert(rows[rows.len() - 1] == rows.last());
    assert(front.len() == 0 ==> longest(front) == 0);
    if front.len() > 0 && longest(front) >= byte_len(rows.last().0) {
        lemma_longest_is_one(front);
        let i = choose|i: int|
            0 <= i < front.len() && byte_len((#[trigger] front[i]).0) == longest(front);
        assert(rows[i] == front[i]);
    }
}

/// The plain text of a table with one row is the name, two blanks, the value and the end of
/// the line, and the text of a longer table begins with the rows that stand first.
pub proof fn law_plain_text(table: &Table, text: String)
    requires
        call_ensures(Table::write_human_readable, (table, false), text),
    ensures
        table@.len() == 0 ==> text@ == Seq::<char>::empty(),
        table@.len() == 1 ==> text@ == table@[0].0 + seq![' ', ' '] + table@[0].1 + seq!['\n'],
        table@.len() == 2 && encode_utf8(table@[0].0).len() == encode_utf8(table@[1].0).len()
            ==> text@ == table@[0].0 + seq![' ', ' '] + table@[0].1 + seq!['\n'] + table@[1].0
            + seq![' ', ' '] + table@[1].1 + seq!['\n'],
        table@.len() == 2 && encode_utf8(table@[0].0).len() + 1 == encode_utf8(table@[1].0).len()
            ==> text@ == seq![' '] + table@[0].0 + seq![' ', ' '] + table@[0].1 + seq!['\n']
            + table@[1].0 + seq![' ', ' '] + table@[1].1 + seq!['\n'],
{
    reveal_strlit("  ");
    reveal_strlit("\n");
    let rows = table@;
    let names = row_names(rows);
    if rows.len() > 0 {
        lemma_longest(rows, 0);
        reveal_with_fuel(table_text, 3);
        reveal_with_fuel(longest, 3);
        assert("  "@ =~= seq![' ', ' ']);
        assert("\n"@ =~= seq!['\n']);
        assert(names[0] == rows[0].0);
        assert(spaces(0) =~= Seq::<char>::empty());
        assert(spaces(1) =~= seq![' ']);
        if rows.len() == 1 {
            assert(rows.drop_last() =~= Seq::empty());
            assert(text@ =~= rows[0].0 + seq![' ', ' '] + rows[0].1 + seq!['\n']);
        }
        if rows.len() == 2 {
            let front = rows.drop_last();
            assert(front.drop_last() =~= Seq::empty());
            assert(front.last() == rows[0]);
            assert(rows.last() == rows[1]);
            assert(names[1] == rows[1].0);
            lemma_longest(rows, 1);
            assert(table_text(front.drop_last(), names, longest(rows)) =~= Seq::<char>::empty());
            if byte_len(rows[0].0) == byte_len(rows[1].0) {
                assert(text@ =~= rows[0].0 + seq![' ', ' '] + rows[0].1 + seq!['\n'] + rows[1].0
                    + seq![' ', ' '] + rows[1].1 + seq!['\n']);
            }
            if byte_len(rows[0].0) + 1 == byte_len(rows[1].0) {
                assert(text@ =~= seq![' '] + rows[0].0 + seq![' ', ' '] + rows[0].1 + seq!['\n']
                    + rows[1].0 + seq![' ', ' '] + rows[1].1 + seq!['\n']);
            }
        }
    }
}

/// What is written of a certificate is the table of what is shown of it, at the time given,
/// plain where no colour is wanted. It fails where nothing can be shown, with the same error.
pub proof fn law_written_is_what_is_shown(
    show: &Show,
    text: &str,
    now: i128,
    table: Table,
    plain: String,
    r: Result<String, ShowError>,
    s: Result<Table, ShowError>,
)
    requires
        call_ensures(Show::run, (show, text, now), r),
        call_ensures(show_table, (text, now), s),
        call_ensures(Table::write_human_readable, (&table, false), plain),
        s == Ok::<Table, ShowError>(table),
    ensures
        r is Ok,
        show.no_color ==> (r matches Ok(said) && said@ == plain@),
{
}

/// Each row has its line in the text of a table: blanks up to the width of the table less the
/// length of the name, the name as it is to be shown, two blanks, the value and the end of the
/// line.
pub proof fn law_line_of_a_row(
    table: &Table,
    shown: &Vec<String>,
    text: String,
    width: usize,
    k: int,
    gap: Seq<char>,
    line: Seq<char>,
)
    requires
        call_ensures(Table::render, (table, shown), text),
        call_ensures(Table::name_width, (table,), width),
        shown@.len() == table@.len(),
        0 <= k < table@.len(),
        gap.len() + encode_utf8(table@[k].0).len() == width,
        forall|j: int| 0 <= j < gap.len() ==> gap[j] == ' ',
        line == gap + shown@[k]@ + seq![' ', ' '] + table@[k].1 + seq!['\n'],
    ensures
        exists|before: Seq<char>, after: Seq<char>|
            text@ == #[trigger] (before + line + after),
{
    reveal_strlit("  ");
    reveal_strlit("\n");
    assert("  "@ =~= seq![' ', ' ']);
    assert("\n"@ =~= seq!['\n']);
    assert(gap =~= spaces(gap.len()));
    let all = texts(shown@);
    assert(all[k] == shown@[k]@);
    let ends = lemma_line_of_a_row(table@, all, width as nat, k, line);
    assert(text@ == ends.0 + line + ends.1);
}

proof fn lemma_line_of_a_row(
    rows: Seq<(Seq<char>, Seq<char>)>,
    shown: Seq<Seq<char>>,
    width: nat,
    k: int,
    line: Seq<char>,
) -> (ends: (Seq<char>, Seq<char>))
    requires
        0 <= k < rows.len(),
        line == spaces((width - byte_len(rows[k].0)) as nat) + shown[k] + "  "@ + rows[k].1
            + "\n"@,
    ensures
        table_text(rows, shown, width) == ends.0 + line + ends.1,
    decreases rows.len(),
{
    let front = table_text(rows.drop_last(), shown, width);
    if k == rows.len() - 1 {
        let ends = (front, Seq::<char>::empty());
        assert(table_text(rows, shown, width) =~= ends.0 + line + ends.1);
        ends
    } else {
        assert(rows.drop_last()[k] == rows[k]);
        let ends = lemma_line_of_a_row(rows.drop_last(), shown, width, k, line);
        let last = spaces((width - byte_len(rows.last().0)) as nat) + shown[rows.len() - 1] + "  "@
            + rows.last().1 + "\n"@;
        assert(table_text(rows, shown, width) =~= front + last);
        assert(front + last =~= ends.0 + line + (ends.1 + last));
        (ends.0, ends.1 + last)
    }
}

/// The rows of a table are given back as they were put in.
pub proof fn law_rows_are_given_back(table: &Table, rows: &Vec<(String, String)>, i: int)
    requires
        call_ensures(Table::rows, (table,), rows),
    ensures
        rows@.len() == table@.len(),
        0 <= i < rows@.len() ==> rows@[i].0@ == table@[i].0 && rows@[i].1@ == table@[i].1,
{
    assert(row_views(rows@).len() == rows@.len());
    if 0 <= i < rows@.len() {
        assert(row_views(rows@)[i] == (rows@[i].0@, rows@[i].1@));
    }
}

/// What was wrong with a certificate is what the error says.
pub proof fn law_errors_say_what_was_wrong(text: String, der: String, san: String, time: String)
    requires
        call_ensures(ShowError::message, (&ShowError::Der(text),), der),
        call_ensures(ShowError::message, (&ShowError::San(text),), san),
        call_ensures(ShowError::message, (&ShowError::Time(text),), time),
    ensures
        der@ == text@,
        san@ == text@,
        time@ == text@,
{
}

} // verus!
