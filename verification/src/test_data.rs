use vstd::prelude::*;

use crate::dao::repeater_service::{AprsMode, FmBandwidth};
use crate::frequency::{Frequency, band_name};
use crate::repeater_service::{RepeaterService, Tone};
use crate::text::{
    ascii_upper, ascii_upper_chars, ascii_upper_seq, chars_of, lemma_trim_ends, lemma_trim_of_trimmed, find_char, is_first_index, opt_view, texts,
    owned, parse_i64, parse_i64_text, push_range, str_eq, remove_pair, remove_pair_chars, string_of, trim,
    trim_chars,
};

verus! {

/// A repeater call sign split at its first `-`: the call sign proper and
/// the port label after the dash, both in ASCII upper case; the call sign is
/// trimmed, an empty label is none. Without a dash the whole text is the
/// call sign.
pub open spec fn split_call_sign_text(s: Seq<char>) -> (Seq<char>, Option<Seq<char>>) {
    if s.contains('-') {
        let i = choose|i: int| is_first_index(s, '-', i);
        let head = s.subrange(0, i);
        let label = s.subrange(i + 1, s.len() as int);
        (
            ascii_upper_seq(trim(head)),
            if label.len() == 0 { None } else { Some(ascii_upper_seq(label)) },
        )
    } else {
        (ascii_upper_seq(s), None)
    }
}

proof fn lemma_first_index_unique(s: Seq<char>, c: char, i: int, j: int)
    requires
        is_first_index(s, c, i),
        is_first_index(s, c, j),
    ensures
        i == j,
{
}

/// Splits `LA1ABC-2M` into the call sign `LA1ABC` and port label `2M`.
pub fn split_call_sign(input: String) -> (r: (String, Option<String>))
    ensures
        r.0@ == split_call_sign_text(input@).0,
        opt_view(r.1) == split_call_sign_text(input@).1,
{
    let v = chars_of(input.as_str());
    match find_char(&v, '-') {
        Some(i) => {
            assert(i < v.len());
            let mut head: Vec<char> = Vec::new();
            push_range(&mut head, &v, 0, i);
            let mut label: Vec<char> = Vec::new();
            push_range(&mut label, &v, i + 1, v.len());
            let label = if label.len() == 0 {
                None
            } else {
                Some(string_of(&ascii_upper_chars(&label)))
            };
            let head = string_of(&ascii_upper_chars(&trim_chars(&head)));
            proof {
                assert(v@.contains('-'));
                let j = choose|j: int| is_first_index(v@, '-', j);
                lemma_first_index_unique(v@, '-', i as int, j);
            }
            (head, label)
        },
        None => (string_of(&ascii_upper_chars(&v)), None),
    }
}

/// A call sign read from a data file is normalized once and for all:
/// normalizing it again changes nothing.
pub proof fn lemma_normalize_call_sign_settles(s: Seq<char>)
    ensures
        ascii_upper_seq(trim(ascii_upper_seq(trim(s)))) == ascii_upper_seq(trim(s)),
{
    let t = trim(s);
    let u = ascii_upper_seq(t);
    lemma_trim_ends(s);
    if u.len() > 0 {
        assert(u[0] == ascii_upper(t[0]));
        assert(u.last() == ascii_upper(t.last()));
    }
    lemma_trim_of_trimmed(u);
    assert(ascii_upper_seq(u) =~= u);
}

/// A call sign read from a data file: trimmed, in ASCII upper case.
pub fn normalize_call_sign(input: String) -> (r: String)
    ensures
        r@ == ascii_upper_seq(trim(input@)),
{
    let v = chars_of(input.as_str());
    string_of(&ascii_upper_chars(&trim_chars(&v)))
}

/// The usual repeater offset for a transmit frequency: -600 kHz on the
/// 2 m band (144-148 MHz), -2 MHz on the 70 cm band (430-450 MHz), none
/// elsewhere.
pub fn default_offset(tx_hz: Frequency) -> (r: Option<i64>)
    ensures
        r == (if 144_000_000 <= tx_hz.spec_hz() < 148_000_000 {
            Some(-600_000i64)
        } else if 430_000_000 <= tx_hz.spec_hz() < 450_000_000 {
            Some(-2_000_000i64)
        } else {
            None
        }),
{
    if tx_hz.contained_in(144_000_000, 148_000_000) {
        Some(-600_000)
    } else if tx_hz.contained_in(430_000_000, 450_000_000) {
        Some(-2_000_000)
    } else {
        None
    }
}

/// How a frequency field of a data file reads.
pub enum HzField {
    /// The field is a whole number of hertz; the frequency, unless negative.
    Hertz(Option<Frequency>),
    /// Otherwise the field, without `Hz`/`hz` and trimmed, is a number of
    /// megahertz that has yet to be read.
    Megahertz(String),
}

/// Reads a frequency field: a whole number is hertz; anything else, once
/// `Hz` and `hz` are removed and it is trimmed, is megahertz.
pub fn parse_hz_field(raw: String) -> (r: HzField)
    ensures
        match parse_i64_text(raw@) {
            Some(v) => r matches HzField::Hertz(f) && (if v >= 0 {
                f matches Some(g) && g.spec_hz() == v
            } else {
                f is None
            }),
            None => r matches HzField::Megahertz(t) && t@ == trim(
                remove_pair(remove_pair(raw@, 'H', 'z'), 'h', 'z'),
            ),
        },
{
    let v = chars_of(raw.as_str());
    match parse_i64(&v) {
        Some(value) => HzField::Hertz(
            match Frequency::new_hz(value) {
                Ok(f) => Some(f),
                Err(_) => None,
            },
        ),
        None => {
            let without_upper = remove_pair_chars(&v, 'H', 'z');
            let without_lower = remove_pair_chars(&without_upper, 'h', 'z');
            HzField::Megahertz(string_of(&trim_chars(&without_lower)))
        },
    }
}

/// The offset of a repeater row: the offset column when it holds a whole
/// number; else the receive minus the transmit frequency when both are
/// known; else the usual offset of the transmit frequency's band.
pub fn resolve_offset(offset: Option<String>, tx: Option<Frequency>, rx: Option<Frequency>) -> (r:
    Option<i64>)
    ensures
        r == match (match offset {
            Some(t) => parse_i64_text(t@),
            None => None,
        }) {
            Some(v) => Some(v as i64),
            None => match (tx, rx) {
                (Some(t), Some(x)) => Some((x.spec_hz() - t.spec_hz()) as i64),
                _ => match tx {
                    Some(t) => if 144_000_000 <= t.spec_hz() < 148_000_000 {
                        Some(-600_000i64)
                    } else if 430_000_000 <= t.spec_hz() < 450_000_000 {
                        Some(-2_000_000i64)
                    } else {
                        None
                    },
                    None => None,
                },
            },
        },
{
    let parsed = match offset {
        Some(t) => parse_i64(&chars_of(t.as_str())),
        None => None,
    };
    match parsed {
        Some(v) => Some(v),
        None => match (tx, rx) {
            (Some(t), Some(x)) => Some(x.hz() - t.hz()),
            _ => match tx {
                Some(t) => default_offset(t),
                None => None,
            },
        },
    }
}

} // verus!

verus! {

/// A required column a data file lacks.
pub struct CsvColumnError {
    /// What is missing, for the log.
    pub message: String,
}

/// A data file read into memory: the normalized name of each column
/// (trimmed, in lower case) and the trimmed cells of each row.
pub struct CsvFile {
    pub header_names: Vec<String>,
    pub data: Vec<Vec<String>>,
}

/// The column a header name finds: the last column of that name; no column
/// for an empty name.
pub open spec fn header_position(names: Seq<Seq<char>>, name: Seq<char>) -> Option<int>
    decreases names.len(),
{
    if name.len() == 0 || names.len() == 0 {
        None
    } else if names.last() == name {
        Some(names.len() - 1)
    } else {
        header_position(names.drop_last(), name)
    }
}

/// The names joined with `,` between them.
pub open spec fn join_comma(names: Seq<Seq<char>>) -> Seq<char>
    decreases names.len(),
{
    if names.len() == 0 {
        Seq::empty()
    } else if names.len() == 1 {
        names[0]
    } else {
        join_comma(names.drop_last()) + seq![','] + names.last()
    }
}

/// The text of the error for a missing column.
pub open spec fn missing_column_text(name: Seq<char>) -> Seq<char> {
    seq![
        'M', 'i', 's', 's', 'i', 'n', 'g', ' ', 'r', 'e', 'q', 'u', 'i', 'r', 'e', 'd', ' ', 'c',
        'o', 'l', 'u', 'm', 'n', ':', ' '
    ] + name
}

/// The text of the error when none of several columns is present.
pub open spec fn missing_any_column_text(names: Seq<Seq<char>>) -> Seq<char> {
    seq![
        'M', 'i', 's', 's', 'i', 'n', 'g', ' ', 'r', 'e', 'q', 'u', 'i', 'r', 'e', 'd', ' ', 'c',
        'o', 'l', 'u', 'm', 'n', ' ', '(', 'o', 'n', 'e', ' ', 'o', 'f', ')', ':', ' '
    ] + join_comma(names)
}

/// The first of `names` that finds a column, and that column.
pub open spec fn first_found(header_names: Seq<Seq<char>>, names: Seq<Seq<char>>) -> Option<int>
    decreases names.len(),
{
    if names.len() == 0 {
        None
    } else {
        match header_position(header_names, names[0]) {
            Some(c) => Some(c),
            None => first_found(header_names, names.drop_first()),
        }
    }
}

/// The views of a sequence of strings.
pub open spec fn views(s: Seq<String>) -> Seq<Seq<char>> {
    s.map_values(|t: String| t@)
}

/// The views of a sequence of string slices.
pub open spec fn str_views(s: Seq<&str>) -> Seq<Seq<char>> {
    s.map_values(|t: &str| t@)
}

/// Whether two strings hold the same text.
pub fn same_text(a: &String, b: &String) -> (r: bool)
    ensures
        r == (a@ == b@),
{
    a.eq(b)
}

/// The texts of the rows of a table, cell by cell.
pub open spec fn table_rows(rows: Seq<Vec<String>>) -> Seq<Seq<Seq<char>>> {
    rows.map_values(|r: Vec<String>| texts(r@))
}

/// What the `csv` crate reads from a file's bytes, with surrounding spaces
/// trimmed from every field and rows of any length allowed: the header row's
/// fields and the fields of each record; `None` when the bytes are not a
/// readable CSV file (such as invalid UTF-8 in a field).
pub uninterp spec fn csv_table(text: Seq<u8>) -> Option<(Seq<Seq<char>>, Seq<Seq<Seq<char>>>)>;

/// Reads a CSV file's bytes with `csv::ReaderBuilder`, trimming every field
/// (`Trim::All`) and allowing rows of any length (`flexible`), and collects
/// the header row and the records as text. Claimed: the result depends on
/// the bytes alone and is the table named `csv_table` of them, `None` exactly
/// when `csv_table` gives none.
#[verifier::external_body]
fn read_csv_table(bytes: &[u8]) -> (r: Option<(Vec<String>, Vec<Vec<String>>)>)
    ensures
        (r is Some) == (csv_table(bytes@) is Some),
        r matches Some(t) ==> csv_table(bytes@) == Some((texts(t.0@), table_rows(t.1@))),
{
    let mut reader = csv::ReaderBuilder::new().trim(csv::Trim::All).flexible(true).from_reader(bytes);
    let headers: Vec<String> = reader.headers().ok()?.iter().map(|h| h.to_string()).collect();
    let records: Result<Vec<Vec<String>>, csv::Error> = reader
        .records()
        .map(|r| r.map(|row| row.iter().map(|c| c.to_string()).collect()))
        .collect();
    Some((headers, records.ok()?))
}

/// Reads a data file from its bytes: the table the `csv` crate reads, made
/// into a `CsvFile` (names trimmed and in lower case, cells trimmed); `None`
/// when the bytes are not a readable CSV file.
pub fn parse_csv(bytes: &[u8]) -> (r: Option<CsvFile>)
    ensures
        match csv_table(bytes@) {
            Some((headers, rows)) => r matches Some(f) && f.is_read_from(headers, rows),
            None => r is None,
        },
{
    match read_csv_table(bytes) {
        Some((headers, records)) => Some(CsvFile::from_records(headers, records)),
        None => None,
    }
}

impl CsvFile {
    /// The file made from header row `headers` and records `rows`: each
    /// header name trimmed and in lower case, each cell trimmed.
    pub open spec fn is_read_from(&self, headers: Seq<Seq<char>>, rows: Seq<Seq<Seq<char>>>) -> bool {
        &&& self.header_names@.len() == headers.len()
        &&& forall|i: int|
            0 <= i < headers.len() ==> #[trigger] self.header_names@[i]@
                == crate::text::unicode_lower(trim(headers[i]))
        &&& self.data@.len() == rows.len()
        &&& forall|i: int| 0 <= i < rows.len() ==> (#[trigger] self.data@[i])@.len() == rows[i].len()
        &&& forall|i: int, j: int|
            0 <= i < rows.len() && 0 <= j < rows[i].len() ==> #[trigger] self.data@[i]@[j]@ == trim(
                rows[i][j],
            )
    }

    /// The normalized column names.
    pub open spec fn names(&self) -> Seq<Seq<char>> {
        views(self.header_names@)
    }

    /// The cell `column` of row `row`, trimmed, when it is present and not
    /// empty.
    pub open spec fn cell(&self, row: int, column: int) -> Option<Seq<char>> {
        if 0 <= row < self.data@.len() && 0 <= column < self.data@[row]@.len() {
            let t = trim(self.data@[row]@[column]@);
            if t.len() > 0 {
                Some(t)
            } else {
                None
            }
        } else {
            None
        }
    }

    /// A file from its header row and records: header names trimmed and
    /// in lower case, cells trimmed.
    pub fn from_records(headers: Vec<String>, records: Vec<Vec<String>>) -> (r: CsvFile)
        ensures
            r.header_names@.len() == headers@.len(),
            forall|i: int|
                0 <= i < headers@.len() ==> #[trigger] r.header_names@[i]@
                    == crate::text::unicode_lower(trim(headers@[i]@)),
            r.data@.len() == records@.len(),
            forall|i: int|
                0 <= i < records@.len() ==> (#[trigger] r.data@[i])@.len() == records@[i]@.len(),
            forall|i: int, j: int|
                0 <= i < records@.len() && 0 <= j < records@[i]@.len() ==> #[trigger] r.data@[i]@[j]@
                    == trim(records@[i]@[j]@),
            r.is_read_from(texts(headers@), table_rows(records@)),
    {
        let mut header_names: Vec<String> = Vec::new();
        let mut i: usize = 0;
        while i < headers.len()
            invariant
                i <= headers.len(),
                header_names@.len() == i,
                forall|k: int|
                    0 <= k < i ==> #[trigger] header_names@[k]@ == crate::text::unicode_lower(
                        trim(headers@[k]@),
                    ),
            decreases headers.len() - i,
        {
            let t = crate::text::trim_str(headers[i].as_str());
            header_names.push(crate::text::to_lowercase(t.as_str()));
            i = i + 1;
        }
        let mut data: Vec<Vec<String>> = Vec::new();
        let mut r: usize = 0;
        while r < records.len()
            invariant
                r <= records.len(),
                data@.len() == r,
                forall|k: int| 0 <= k < r ==> (#[trigger] data@[k])@.len() == records@[k]@.len(),
                forall|k: int, j: int|
                    0 <= k < r && 0 <= j < records@[k]@.len() ==> #[trigger] data@[k]@[j]@ == trim(
                        records@[k]@[j]@,
                    ),
            decreases records.len() - r,
        {
            let record = &records[r];
            let mut cells: Vec<String> = Vec::new();
            let mut j: usize = 0;
            while j < record.len()
                invariant
                    j <= record.len(),
                    record == &records@[r as int],
                    cells@.len() == j,
                    forall|m: int| 0 <= m < j ==> #[trigger] cells@[m]@ == trim(record@[m]@),
                decreases record.len() - j,
            {
                cells.push(crate::text::trim_str(record[j].as_str()));
                j = j + 1;
            }
            data.push(cells);
            r = r + 1;
        }
        let r = CsvFile { header_names, data };
        proof {
            let hs = texts(headers@);
            let rows = table_rows(records@);
            assert forall|i: int| 0 <= i < hs.len() implies #[trigger] r.header_names@[i]@
                == crate::text::unicode_lower(trim(hs[i])) by {
                assert(hs[i] == headers@[i]@);
            }
            assert forall|i: int| 0 <= i < rows.len() implies (#[trigger] r.data@[i])@.len()
                == rows[i].len() by {
                assert(rows[i] == texts(records@[i]@));
            }
            assert forall|i: int, j: int| 0 <= i < rows.len() && 0 <= j < rows[i].len() implies #[trigger] r.data@[i]@[j]@
                == trim(rows[i][j]) by {
                assert(rows[i] == texts(records@[i]@));
                assert(rows[i][j] == records@[i]@[j]@);
            }
        }
        r
    }

    /// The column of a required header.
    pub fn get_header(&self, name: &str) -> (r: Result<usize, CsvColumnError>)
        ensures
            match header_position(self.names(), name@) {
                Some(c) => r == Ok::<usize, CsvColumnError>(c as usize),
                None => r matches Err(e) && e.message@ == missing_column_text(name@),
            },
    {
        let wanted = crate::text::owned(name);
        let mut k: usize = self.header_names.len();
        let ghost names = self.names();
        proof {
            assert(names.subrange(0, k as int) =~= names);
        }
        if wanted.as_str().is_empty() {
            return Err(CsvColumnError { message: missing_column_message(name) });
        }
        while k > 0
            invariant
                k <= self.header_names.len(),
                names == self.names(),
                wanted@ == name@,
                name@.len() > 0,
                header_position(names, name@) == header_position(names.subrange(0, k as int), name@),
            decreases k,
        {
            let ghost prefix = names.subrange(0, k as int);
            proof {
                assert(prefix.drop_last() =~= names.subrange(0, k - 1));
                assert(prefix.last() == self.header_names@[k - 1]@);
            }
            if same_text(&self.header_names[k - 1], &wanted) {
                return Ok(k - 1);
            }
            k = k - 1;
        }
        Err(CsvColumnError { message: missing_column_message(name) })
    }

    /// The column of the first of several header names the file has.
    pub fn get_first_header(&self, names: Vec<&str>) -> (r: Result<usize, CsvColumnError>)
        ensures
            match first_found(self.names(), str_views(names@)) {
                Some(c) => r == Ok::<usize, CsvColumnError>(c as usize),
                None => r matches Err(e) && e.message@ == missing_any_column_text(
                    str_views(names@),
                ),
            },
    {
        let mut i: usize = 0;
        proof {
            assert(str_views(names@).subrange(0, 0) =~= Seq::<Seq<char>>::empty());
            assert(str_views(names@).subrange(0, str_views(names@).len() as int) =~= str_views(names@));
        }
        while i < names.len()
            invariant
                i <= names.len(),
                first_found(self.names(), str_views(names@)) == first_found(
                    self.names(),
                    str_views(names@).subrange(i as int, names@.len() as int),
                ),
            decreases names.len() - i,
        {
            let ghost rest = str_views(names@).subrange(i as int, names@.len() as int);
            proof {
                assert(rest[0] == names@[i as int]@);
                assert(rest.drop_first() =~= str_views(names@).subrange(i + 1, names@.len() as int));
            }
            match self.get_header(names[i]) {
                Ok(c) => {
                    return Ok(c);
                },
                Err(_) => {},
            }
            i = i + 1;
        }
        proof {
            assert(str_views(names@).subrange(names@.len() as int, names@.len() as int) =~= Seq::<Seq<char>>::empty());
        }
        Err(CsvColumnError { message: missing_any_column_message(&names) })
    }

    /// The cell `column` of row `row`, trimmed, unless it is missing or
    /// empty.
    pub fn get(&self, row: usize, column: usize) -> (r: Option<String>)
        ensures
            opt_view(r) == self.cell(row as int, column as int),
    {
        if row >= self.data.len() {
            return None;
        }
        let cells = &self.data[row];
        if column >= cells.len() {
            return None;
        }
        let t = crate::text::trim_str(cells[column].as_str());
        if t.as_str().is_empty() {
            None
        } else {
            Some(t)
        }
    }

    /// The cell of an optional column: none when the column is missing.
    pub fn get_opt(&self, row: usize, column: &Result<usize, CsvColumnError>) -> (r: Option<String>)
        ensures
            opt_view(r) == match column {
                Ok(c) => self.cell(row as int, *c as int),
                Err(_) => None,
            },
    {
        match column {
            Ok(column) => self.get(row, *column),
            Err(_) => None,
        }
    }
}

fn missing_column_message(name: &str) -> (r: String)
    ensures
        r@ == missing_column_text(name@),
{
    proof {
        reveal_strlit("Missing required column: ");
    }
    crate::text::concat("Missing required column: ", name)
}

fn missing_any_column_message(names: &Vec<&str>) -> (r: String)
    ensures
        r@ == missing_any_column_text(str_views(names@)),
{
    proof {
        reveal_strlit("Missing required column (one of): ");
        reveal_strlit(",");
    }
    let mut out = chars_of("Missing required column (one of): ");
    let ghost prefix = out@;
    let mut i: usize = 0;
    while i < names.len()
        invariant
            i <= names.len(),
            out@ == prefix + join_comma(str_views(names@).subrange(0, i as int)),
        decreases names.len() - i,
    {
        let ghost before = str_views(names@).subrange(0, i as int);
        let ghost after = str_views(names@).subrange(0, i + 1);
        proof {
            assert(after.drop_last() =~= before);
            assert(after.last() == names@[i as int]@);
        }
        let ghost o0 = out@;
        proof {
            reveal_strlit(",");
        }
        if i > 0 {
            crate::text::push_str(&mut out, ",");
            assert(out@ == o0 + seq![',']);
        }
        crate::text::push_str(&mut out, names[i]);
        proof {
            if i == 0 {
                assert(before =~= Seq::<Seq<char>>::empty());
                assert(after.len() == 1);
                assert(join_comma(after) == after[0]);
                assert(out@ =~= prefix + join_comma(after));
            } else {
                assert(join_comma(after) == join_comma(before) + seq![','] + after.last());
                assert(out@ =~= prefix + join_comma(after));
            }
        }
        i = i + 1;
    }
    proof {
        assert(str_views(names@).subrange(0, names@.len() as int) =~= str_views(names@));
    }
    string_of(&out)
}

} // verus!

verus! {

/// Why a row of a repeater data file is passed over.
#[derive(Debug, Copy, Clone, PartialEq, Eq, Structural)]
pub enum RowSkip {
    /// The row names no service.
    MissingService,
    /// The row names a service the loader does not know.
    UnsupportedService,
    /// An APRS row without a transmit frequency.
    MissingTx,
    /// A voice row without a transmit frequency or an offset.
    MissingTxOrOffset,
    /// A DMR or C4FM row whose receive frequency falls outside the valid range.
    InvalidRx,
}

/// What the loader does with the service of one row.
pub enum ServicePlan {
    /// Creates this service on the row's repeater.
    Create(RepeaterService),
    /// Passes over the row.
    Skip(RowSkip),
    /// An FM row whose receive frequency falls outside the valid range: the
    /// load stops with an error.
    Fail,
}

/// The service column of a row, empty when the row has none.
pub open spec fn service_text(service: Option<String>) -> Seq<char> {
    match service {
        Some(s) => s@,
        None => Seq::empty(),
    }
}

/// The label of a service made from a row: the port label of the row's
/// call sign, else the band of its transmit frequency.
pub open spec fn row_label(port_label: Option<Seq<char>>, tx: Frequency) -> Seq<char> {
    match port_label {
        Some(l) => l,
        None => band_name(tx.spec_hz()),
    }
}

/// The tone a CTCSS column gives, in tenths of a hertz: none when empty.
pub open spec fn ctcss_tone(ctcss: Option<u32>) -> Tone {
    match ctcss {
        Some(f) => Tone::CTCSS(f),
        None => Tone::NoTone,
    }
}

/// Whether the receive frequency `tx + offset` is a valid frequency.
pub open spec fn rx_in_range(tx: Frequency, offset: i64) -> bool {
    0 <= tx.spec_hz() + offset <= i64::MAX
}

/// What the loader makes of one row: by the service column, an FM, APRS
/// igate, APRS digipeater, DMR or C4FM service, with the inputs each needs,
/// or the reason the row is passed over.
pub open spec fn is_row_plan(
    r: ServicePlan,
    service: Seq<char>,
    port_label: Option<Seq<char>>,
    tx: Option<Frequency>,
    offset: Option<i64>,
    ctcss_rx: Option<u32>,
    ctcss_tx: Option<u32>,
    dmr_id: Option<i64>,
) -> bool {
    if service == "FM_NARROW"@ {
        match (tx, offset) {
            (Some(t), Some(o)) => if rx_in_range(t, o) {
                r matches ServicePlan::Create(
                    RepeaterService::Fm { label, rx_hz, tx_hz, bandwidth, rx_tone, tx_tone, note },
                ) && label@ == row_label(port_label, t) && rx_hz.spec_hz() == t.spec_hz() + o
                    && tx_hz == t && bandwidth == FmBandwidth::Narrow && rx_tone == ctcss_tone(
                    ctcss_rx,
                ) && tx_tone == ctcss_tone(ctcss_tx) && note is None
            } else {
                r is Fail
            },
            _ => r == ServicePlan::Skip(RowSkip::MissingTxOrOffset),
        }
    } else if service == "APRS_IGATE"@ || service == "APRS_DIGIPEATER"@ {
        match tx {
            Some(t) => r matches ServicePlan::Create(
                RepeaterService::Aprs { label, rx_hz, tx_hz, mode, path, note },
            ) && label@ == row_label(port_label, t) && rx_hz == t && tx_hz == t && mode == Some(
                if service == "APRS_IGATE"@ {
                    AprsMode::Igate
                } else {
                    AprsMode::Digipeater
                },
            ) && path is None && note is None,
            None => r == ServicePlan::Skip(RowSkip::MissingTx),
        }
    } else if service == "DMR"@ || service == "C4FM"@ {
        match (tx, offset) {
            (Some(t), Some(o)) => if !rx_in_range(t, o) {
                r == ServicePlan::Skip(RowSkip::InvalidRx)
            } else if service == "DMR"@ {
                r matches ServicePlan::Create(
                    RepeaterService::Dmr {
                        label,
                        rx_hz,
                        tx_hz,
                        color_code,
                        dmr_repeater_id,
                        network,
                        note,
                    },
                ) && label@ == row_label(port_label, t) && rx_hz.spec_hz() == t.spec_hz() + o
                    && tx_hz == t && color_code == 1 && dmr_repeater_id == dmr_id && network@
                    == "unknown"@ && note is None
            } else {
                r matches ServicePlan::Create(
                    RepeaterService::C4fm { label, rx_hz, tx_hz, wires_x_node_id, room, note },
                ) && label@ == row_label(port_label, t) && rx_hz.spec_hz() == t.spec_hz() + o
                    && tx_hz == t && wires_x_node_id is None && room is None && note is None
            },
            _ => r == ServicePlan::Skip(RowSkip::MissingTxOrOffset),
        }
    } else if service.len() == 0 {
        r == ServicePlan::Skip(RowSkip::MissingService)
    } else {
        r == ServicePlan::Skip(RowSkip::UnsupportedService)
    }
}

/// A service the loader creates from a row transmits on the row's transmit
/// frequency and listens on that frequency moved by the row's offset (APRS,
/// which takes no offset, listens where it transmits); it is labelled as the
/// row's port or band, has no note, and is of the kind the service column
/// names. A voice row (FM, DMR, C4FM) with a transmit frequency and an
/// offset that lands on a valid frequency always gives a service.
pub proof fn lemma_planned_service_frequencies(
    r: ServicePlan,
    service: Seq<char>,
    port_label: Option<Seq<char>>,
    tx: Option<Frequency>,
    offset: Option<i64>,
    ctcss_rx: Option<u32>,
    ctcss_tx: Option<u32>,
    dmr_id: Option<i64>,
)
    requires
        is_row_plan(r, service, port_label, tx, offset, ctcss_rx, ctcss_tx, dmr_id),
    ensures
        r matches ServicePlan::Create(s) ==> {
            &&& tx matches Some(t)
            &&& s.spec_tx_hz() == t
            &&& s.spec_label()@ == row_label(port_label, t)
            &&& s.spec_note() is None
            &&& s is Aprs ==> s.spec_rx_hz() == t
            &&& !(s is Aprs) ==> (offset matches Some(o) && s.spec_rx_hz().spec_hz() == t.spec_hz()
                + o)
            &&& service == "FM_NARROW"@ ==> s is Fm
            &&& service == "DMR"@ ==> s is Dmr
            &&& service == "C4FM"@ ==> s is C4fm
            &&& (service == "APRS_IGATE"@ || service == "APRS_DIGIPEATER"@) ==> s is Aprs
            &&& service == "FM_NARROW"@ || service == "DMR"@ || service == "C4FM"@ || service
                == "APRS_IGATE"@ || service == "APRS_DIGIPEATER"@
        },
        (service == "FM_NARROW"@ || service == "DMR"@ || service == "C4FM"@) ==> (
        tx matches Some(t) ==> (offset matches Some(o) ==> (rx_in_range(t, o) ==> r is Create))),
{
    reveal_strlit("FM_NARROW");
    reveal_strlit("APRS_IGATE");
    reveal_strlit("APRS_DIGIPEATER");
    reveal_strlit("DMR");
    reveal_strlit("C4FM");
    let fm = "FM_NARROW"@;
    let ig = "APRS_IGATE"@;
    let dg = "APRS_DIGIPEATER"@;
    let dmr = "DMR"@;
    let c4 = "C4FM"@;
    assert(fm.len() == 9 && ig.len() == 10 && dg.len() == 15 && dmr.len() == 3 && c4.len() == 4);
    assert(fm != ig && fm != dg && fm != dmr && fm != c4 && ig != dg && ig != dmr && ig != c4
        && dg != dmr && dg != c4);
    assert(dmr[0] == 'D' && c4[0] == 'C');
    assert(dmr != c4);
}

/// The settings of a created service come from the row: an FM service is
/// narrow and takes the row's CTCSS tones (none where a column is empty); a
/// DMR service takes the row's DMR id, colour code 1 and network `unknown`;
/// an APRS service is an igate or a digipeater as the column says. A row
/// names no service when its column is empty, an unknown one otherwise; an
/// FM row whose receive frequency is out of range stops the load, while a
/// DMR or C4FM one is passed over.
pub proof fn lemma_planned_service_settings(
    r: ServicePlan,
    service: Seq<char>,
    port_label: Option<Seq<char>>,
    tx: Option<Frequency>,
    offset: Option<i64>,
    ctcss_rx: Option<u32>,
    ctcss_tx: Option<u32>,
    dmr_id: Option<i64>,
)
    requires
        is_row_plan(r, service, port_label, tx, offset, ctcss_rx, ctcss_tx, dmr_id),
    ensures
        r matches ServicePlan::Create(RepeaterService::Fm { bandwidth, rx_tone, tx_tone, .. }) ==> {
            &&& bandwidth == FmBandwidth::Narrow
            &&& (ctcss_rx matches Some(f) ==> rx_tone == Tone::CTCSS(f))
            &&& (ctcss_rx is None ==> rx_tone == Tone::NoTone)
            &&& (ctcss_tx matches Some(f) ==> tx_tone == Tone::CTCSS(f))
            &&& (ctcss_tx is None ==> tx_tone == Tone::NoTone)
        },
        r matches ServicePlan::Create(
            RepeaterService::Dmr { color_code, dmr_repeater_id, network, .. },
        ) ==> color_code == 1 && dmr_repeater_id == dmr_id && network@ == "unknown"@,
        r matches ServicePlan::Create(RepeaterService::Aprs { mode, path, .. }) ==> path is None
            && mode == Some(if service == "APRS_IGATE"@ { AprsMode::Igate } else { AprsMode::Digipeater }),
        r matches ServicePlan::Create(RepeaterService::Aprs { .. }) ==> service == "APRS_IGATE"@
            || service == "APRS_DIGIPEATER"@,
        service.len() == 0 ==> r == ServicePlan::Skip(RowSkip::MissingService),
        (service.len() > 0 && service != "FM_NARROW"@ && service != "DMR"@ && service != "C4FM"@
            && service != "APRS_IGATE"@ && service != "APRS_DIGIPEATER"@) ==> r == ServicePlan::Skip(
            RowSkip::UnsupportedService,
        ),
        (tx matches Some(t) && offset matches Some(o) && !rx_in_range(t, o)) ==> (
        (service == "FM_NARROW"@ ==> r is Fail) && ((service == "DMR"@ || service == "C4FM"@)
            ==> r == ServicePlan::Skip(RowSkip::InvalidRx))),
{
    reveal_strlit("FM_NARROW");
    reveal_strlit("APRS_IGATE");
    reveal_strlit("APRS_DIGIPEATER");
    reveal_strlit("DMR");
    reveal_strlit("C4FM");
    let fm = "FM_NARROW"@;
    let ig = "APRS_IGATE"@;
    let dg = "APRS_DIGIPEATER"@;
    let dmr = "DMR"@;
    let c4 = "C4FM"@;
    assert(fm.len() == 9 && ig.len() == 10 && dg.len() == 15 && dmr.len() == 3 && c4.len() == 4);
    assert(fm != ig && fm != dg && fm != dmr && fm != c4 && ig != dg && ig != dmr && ig != c4
        && dg != dmr && dg != c4);
    assert(dmr[0] == 'D' && c4[0] == 'C');
    assert(dmr != c4);
}

/// The label of a row's service: its port label, else the band name.
fn label_for(port_label: &Option<String>, tx: Frequency) -> (r: String)
    ensures
        r@ == row_label(opt_view(*port_label), tx),
{
    match port_label {
        Some(l) => owned(l.as_str()),
        None => owned(tx.band_label()),
    }
}

/// Decides what to do with the service of one row of a repeater data file,
/// given the row's service column, the port label of its call sign, its
/// transmit frequency and offset, its CTCSS tones in tenths of a hertz and
/// its DMR id.
pub fn plan_service(
    service: Option<String>,
    port_label: Option<String>,
    tx: Option<Frequency>,
    offset: Option<i64>,
    ctcss_rx: Option<u32>,
    ctcss_tx: Option<u32>,
    dmr_id: Option<i64>,
) -> (r: ServicePlan)
    ensures
        is_row_plan(
            r,
            service_text(service),
            opt_view(port_label),
            tx,
            offset,
            ctcss_rx,
            ctcss_tx,
            dmr_id,
        ),
{
    let s: String = match service {
        Some(t) => t,
        None => String::new(),
    };
    let is_fm = str_eq(s.as_str(), "FM_NARROW");
    let is_igate = str_eq(s.as_str(), "APRS_IGATE");
    let is_digi = str_eq(s.as_str(), "APRS_DIGIPEATER");
    let is_dmr = str_eq(s.as_str(), "DMR");
    let is_c4fm = str_eq(s.as_str(), "C4FM");
    proof {
        reveal_strlit("FM_NARROW");
        reveal_strlit("APRS_IGATE");
        reveal_strlit("APRS_DIGIPEATER");
        reveal_strlit("DMR");
        reveal_strlit("C4FM");
        reveal_strlit("unknown");
    }
    if is_fm {
        match (tx, offset) {
            (Some(t), Some(o)) => match t.offset(o) {
                Ok(rx_hz) => {
                    let rx_tone = match ctcss_rx {
                        Some(f) => Tone::CTCSS(f),
                        None => Tone::NoTone,
                    };
                    let tx_tone = match ctcss_tx {
                        Some(f) => Tone::CTCSS(f),
                        None => Tone::NoTone,
                    };
                    ServicePlan::Create(
                        RepeaterService::Fm {
                            label: label_for(&port_label, t),
                            rx_hz,
                            tx_hz: t,
                            bandwidth: FmBandwidth::Narrow,
                            rx_tone,
                            tx_tone,
                            note: None,
                        },
                    )
                },
                Err(_) => ServicePlan::Fail,
            },
            _ => ServicePlan::Skip(RowSkip::MissingTxOrOffset),
        }
    } else if is_igate || is_digi {
        match tx {
            Some(t) => ServicePlan::Create(
                RepeaterService::Aprs {
                    label: label_for(&port_label, t),
                    rx_hz: t,
                    tx_hz: t,
                    mode: Some(
                        if is_igate {
                            AprsMode::Igate
                        } else {
                            AprsMode::Digipeater
                        },
                    ),
                    path: None,
                    note: None,
                },
            ),
            None => ServicePlan::Skip(RowSkip::MissingTx),
        }
    } else if is_dmr || is_c4fm {
        match (tx, offset) {
            (Some(t), Some(o)) => match t.offset(o) {
                Ok(rx_hz) => if is_dmr {
                    ServicePlan::Create(
                        RepeaterService::Dmr {
                            label: label_for(&port_label, t),
                            rx_hz,
                            tx_hz: t,
                            color_code: 1,
                            dmr_repeater_id: dmr_id,
                            network: owned("unknown"),
                            note: None,
                        },
                    )
                } else {
                    ServicePlan::Create(
                        RepeaterService::C4fm {
                            label: label_for(&port_label, t),
                            rx_hz,
                            tx_hz: t,
                            wires_x_node_id: None,
                            room: None,
                            note: None,
                        },
                    )
                },
                Err(_) => ServicePlan::Skip(RowSkip::InvalidRx),
            },
            _ => ServicePlan::Skip(RowSkip::MissingTxOrOffset),
        }
    } else if s.unicode_len() == 0 {
        ServicePlan::Skip(RowSkip::MissingService)
    } else {
        ServicePlan::Skip(RowSkip::UnsupportedService)
    }
}

} // verus!

verus! {

/// Why a row of the contacts file is passed over.
#[derive(Debug, Copy, Clone, PartialEq, Eq, Structural)]
pub enum ContactSkip {
    /// The row has no call sign cell.
    MissingCallSign,
    /// The call sign cell is blank.
    EmptyCallSign,
    /// An earlier row already gave this call sign.
    Duplicate,
}

/// What the loader does with one row of the contacts file.
pub enum ContactPlan {
    /// Passes over the row.
    Skip(ContactSkip),
    /// Creates an organization contact with this call sign and display name.
    Create { call_sign: String, display_name: String },
}

/// Whether `known` holds the text `n`.
fn contains_text(known: &Vec<String>, n: &String) -> (r: bool)
    ensures
        r == texts(known@).contains(n@),
{
    let mut i: usize = 0;
    while i < known.len()
        invariant
            i <= known.len(),
            forall|j: int| 0 <= j < i ==> known@[j]@ != n@,
        decreases known.len() - i,
    {
        if str_eq(known[i].as_str(), n.as_str()) {
            proof {
                assert(texts(known@)[i as int] == n@);
            }
            return true;
        }
        i = i + 1;
    }
    proof {
        if texts(known@).contains(n@) {
            let j = choose|j: int| 0 <= j < texts(known@).len() && texts(known@)[j] == n@;
            assert(known@[j]@ == n@);
        }
    }
    false
}

/// Whether a row of a repeater data file creates the repeater system of its
/// call sign: the first row of a call sign does, given the call signs of the
/// systems already made; later rows add their services to that system.
pub fn creates_repeater(call_sign: &String, seen: &Vec<String>) -> (r: bool)
    ensures
        r == !texts(seen@).contains(call_sign@),
{
    !contains_text(seen, call_sign)
}

/// Decides what to do with one row of the contacts file, given its call
/// sign and name cells and the call signs already loaded: the call sign is
/// trimmed and upper-cased; the display name is the name cell, else the call
/// sign.
pub fn plan_contact(call_sign_cell: Option<String>, name_cell: Option<String>, known: &Vec<String>) -> (r:
    ContactPlan)
    ensures
        match call_sign_cell {
            None => r == ContactPlan::Skip(ContactSkip::MissingCallSign),
            Some(c) => {
                let n = ascii_upper_seq(trim(c@));
                if n.len() == 0 {
                    r == ContactPlan::Skip(ContactSkip::EmptyCallSign)
                } else if texts(known@).contains(n) {
                    r == ContactPlan::Skip(ContactSkip::Duplicate)
                } else {
                    r matches ContactPlan::Create { call_sign, display_name } && call_sign@ == n
                        && display_name@ == match name_cell {
                        Some(x) => x@,
                        None => n,
                    }
                }
            },
        },
{
    match call_sign_cell {
        None => ContactPlan::Skip(ContactSkip::MissingCallSign),
        Some(c) => {
            let n = normalize_call_sign(c);
            if n.unicode_len() == 0 {
                return ContactPlan::Skip(ContactSkip::EmptyCallSign);
            }
            if contains_text(known, &n) {
                return ContactPlan::Skip(ContactSkip::Duplicate);
            }
            let display_name = match name_cell {
                Some(x) => x,
                None => owned(n.as_str()),
            };
            ContactPlan::Create { call_sign: n, display_name }
        },
    }
}

/// The two repeater call signs a row of the links file names, each without
/// its port label; none when either cell is missing.
pub fn link_call_signs(a_cell: Option<String>, b_cell: Option<String>) -> (r: Option<(String, String)>)
    ensures
        match (a_cell, b_cell) {
            (Some(a), Some(b)) => r matches Some(p) && p.0@ == split_call_sign_text(a@).0 && p.1@
                == split_call_sign_text(b@).0,
            _ => r is None,
        },
{
    match (a_cell, b_cell) {
        (Some(a), Some(b)) => {
            let (a, _) = split_call_sign(a);
            let (b, _) = split_call_sign(b);
            Some((a, b))
        },
        _ => None,
    }
}

} // verus!
