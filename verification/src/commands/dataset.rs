//! `topk dataset`: listing, reading, creating and deleting datasets.

use vstd::prelude::*;
use crate::text::views;

verus! {

/// What `topk dataset` does.
pub enum DatasetAction {
    /// List all datasets
    List,
    /// Get a dataset
    Get { dataset: String },
    /// Create a dataset
    Create { dataset: String },
    /// Delete a dataset
    Delete { dataset: String, yes: bool },
}

/// A dataset as the service describes it.
pub struct Dataset {
    pub name: String,
    pub region: String,
    /// RFC 3339 timestamp.
    pub created_at: String,
}

/// The datasets of the account.
pub struct ListDatasetsResult {
    pub datasets: Vec<Dataset>,
}

/// One dataset, as read.
pub struct GetDatasetResult {
    pub dataset: Dataset,
}

/// The dataset just created.
pub struct CreateDatasetResult {
    pub dataset: Dataset,
}

/// Whether a dataset was deleted or the deletion skipped.
pub struct DeleteDatasetResult {
    pub deleted: bool,
}

/// The twelve month names as `chrono` abbreviates them.
pub open spec fn short_month_names() -> Seq<Seq<char>> {
    seq![
        seq!['J', 'a', 'n'], seq!['F', 'e', 'b'], seq!['M', 'a', 'r'], seq!['A', 'p', 'r'],
        seq!['M', 'a', 'y'], seq!['J', 'u', 'n'], seq!['J', 'u', 'l'], seq!['A', 'u', 'g'],
        seq!['S', 'e', 'p'], seq!['O', 'c', 't'], seq!['N', 'o', 'v'], seq!['D', 'e', 'c'],
    ]
}

/// Whether `c` is an ASCII decimal digit.
pub open spec fn ascii_digit(c: char) -> bool {
    48 <= (c as u32) && (c as u32) <= 57
}

/// `t` reads as a date and time in the form `Mon D, YYYY HH:MM`: a month
/// abbreviation, a space, the day's first digit, ..., then a space, two
/// hour digits, a colon and two minute digits; at least 17 characters.
pub open spec fn date_time_text(t: Seq<char>) -> bool {
    let n = t.len();
    &&& n >= 17
    &&& short_month_names().contains(t.take(3))
    &&& t[3] == ' '
    &&& ascii_digit(t[4])
    &&& t[n - 6] == ' '
    &&& ascii_digit(t[n - 5])
    &&& ascii_digit(t[n - 4])
    &&& t[n - 3] == ':'
    &&& ascii_digit(t[n - 2])
    &&& ascii_digit(t[n - 1])
}

/// The creation time as the tool shows it: parsed as an RFC 3339 UTC
/// timestamp (the epoch when it does not parse), moved to the machine's
/// local time zone and formatted with `format` by `chrono`. Which date and
/// time it shows depends on the machine's time zone and is not stated; the
/// contract states the form that format gives: the month's abbreviation
/// (`%b`), the day without padding (`%-d`), the year of at least four
/// characters (`%Y`), and the hour and minute as two digits each (`%H:%M`).
/// The format is the tool's one, whose items `chrono` always renders (an
/// invalid item would make the formatting panic).
#[verifier::external_body]
fn local_time_text(created_at: &str, format: &str) -> (r: String)
    requires
        format@ == "%b %-d, %Y %H:%M"@,
    ensures
        date_time_text(r@),
{
    let parsed = created_at.parse::<chrono::DateTime<chrono::Utc>>().unwrap_or_default();
    parsed.with_timezone(&chrono::Local).format(format).to_string()
}

/// The creation time of `d` as shown to a person, in local time.
fn created_text(d: &Dataset) -> (r: String)
    ensures
        date_time_text(r@),
{
    local_time_text(d.created_at.as_str(), "%b %-d, %Y %H:%M")
}

/// The three-line description of a dataset, given how its creation time reads.
pub open spec fn dataset_text(d: Dataset, created: Seq<char>) -> Seq<char> {
    "Name:    "@ + d.name@ + "\nRegion:  "@ + d.region@ + "\nCreated: "@ + created
}

/// `row` is the table row of `d`: name, region, creation time.
pub open spec fn dataset_row(d: Dataset, created: Seq<char>, row: Seq<Seq<char>>) -> bool {
    row == seq![d.name@, d.region@, created]
}

impl ListDatasetsResult {
    /// `No datasets found.` when there are none, else `None`: the datasets
    /// are then drawn as a table.
    pub fn empty_text(&self) -> (r: Option<String>)
        ensures
            self.datasets@.len() == 0 <==> r is Some,
            r matches Some(t) ==> t@ == "No datasets found."@,
    {
        if self.datasets.len() == 0 {
            Some("No datasets found.".to_owned())
        } else {
            None
        }
    }

    /// The table rows, given each dataset's creation time as shown.
    pub fn rows_with_created(&self, created: &Vec<String>) -> (rows: Vec<Vec<String>>)
        requires
            created@.len() == self.datasets@.len(),
        ensures
            rows@.len() == self.datasets@.len(),
            forall|i: int| 0 <= i < rows@.len() ==>
                dataset_row(self.datasets@[i], created@[i]@, #[trigger] views(rows@[i]@)),
    {
        let mut rows: Vec<Vec<String>> = Vec::new();
        let mut i: usize = 0;
        while i < self.datasets.len()
            invariant
                created@.len() == self.datasets@.len(),
                i <= self.datasets@.len(),
                rows@.len() == i,
                forall|j: int| 0 <= j < i ==>
                    dataset_row(self.datasets@[j], created@[j]@, #[trigger] views(rows@[j]@)),
            decreases self.datasets.len() - i,
        {
            let d = &self.datasets[i];
            let mut row: Vec<String> = Vec::new();
            row.push(d.name.clone());
            row.push(d.region.clone());
            row.push(created[i].clone());
            assert(views(row@) =~= seq![d.name@, d.region@, created@[i as int]@]);
            rows.push(row);
            i = i + 1;
        }
        rows
    }

    /// The table rows: name, region and local creation time of each dataset.
    pub fn rows(&self) -> (rows: Vec<Vec<String>>)
        ensures
            rows@.len() == self.datasets@.len(),
            forall|i: int| 0 <= i < rows@.len() ==> (#[trigger] views(rows@[i]@)).len() == 3
                && views(rows@[i]@)[0] == self.datasets@[i].name@
                && views(rows@[i]@)[1] == self.datasets@[i].region@,
            forall|i: int| 0 <= i < rows@.len() ==> date_time_text(#[trigger] views(rows@[i]@)[2]),
    {
        let mut created: Vec<String> = Vec::new();
        let mut i: usize = 0;
        while i < self.datasets.len()
            invariant
                i <= self.datasets@.len(),
                created@.len() == i,
                forall|j: int| 0 <= j < i ==> date_time_text(#[trigger] created@[j]@),
            decreases self.datasets.len() - i,
        {
            created.push(created_text(&self.datasets[i]));
            i = i + 1;
        }
        let rows = self.rows_with_created(&created);
        assert forall|i: int| 0 <= i < rows@.len() implies (#[trigger] views(rows@[i]@)).len() == 3
            && views(rows@[i]@)[0] == self.datasets@[i].name@
            && views(rows@[i]@)[1] == self.datasets@[i].region@
            && date_time_text(views(rows@[i]@)[2]) by {
            assert(dataset_row(self.datasets@[i], created@[i]@, views(rows@[i]@)));
            assert(date_time_text(created@[i]@));
        }
        rows
    }
}

impl GetDatasetResult {
    /// The dataset's name, region and creation time, one per line, given
    /// how the creation time reads.
    pub fn render_with_created(&self, created: &str) -> (r: String)
        ensures
            r@ == dataset_text(self.dataset, created@),
    {
        let mut s = "Name:    ".to_owned();
        s.append(self.dataset.name.as_str());
        s.append("\nRegion:  ");
        s.append(self.dataset.region.as_str());
        s.append("\nCreated: ");
        s.append(created);
        s
    }

    /// The dataset's name, region and local creation time, one per line.
    pub fn render(&self) -> (r: String)
        ensures
            exists|created: Seq<char>| #[trigger] dataset_text(self.dataset, created) == r@ && date_time_text(created),
    {
        let created = created_text(&self.dataset);
        self.render_with_created(created.as_str())
    }
}

impl CreateDatasetResult {
    /// `Dataset '<name>' created.`
    pub fn render(&self) -> (r: String)
        ensures
            r@ == "Dataset '"@ + self.dataset.name@ + "' created."@,
    {
        let mut s = "Dataset '".to_owned();
        s.append(self.dataset.name.as_str());
        s.append("' created.");
        s
    }
}

impl DeleteDatasetResult {
    /// `Dataset deleted.` or `Deletion skipped.`
    pub fn render(&self) -> (r: String)
        ensures
            r@ == (if self.deleted { "Dataset deleted."@ } else { "Deletion skipped."@ }),
    {
        if self.deleted {
            "Dataset deleted.".to_owned()
        } else {
            "Deletion skipped.".to_owned()
        }
    }
}

/// The question asked before deleting dataset `name`.
pub fn delete_dataset_prompt(name: &str) -> (r: String)
    ensures
        r@ == "Delete dataset '"@ + name@ + "'? [y/N] "@,
{
    let mut s = "Delete dataset '".to_owned();
    s.append(name);
    s.append("'? [y/N] ");
    s
}


/// The creation time is never blank: whatever the time zone, it names a
/// month and ends in the hour and minute.
pub proof fn law_created_time_never_blank(t: Seq<char>)
    requires
        date_time_text(t),
    ensures
        t.len() >= 17,
        t[t.len() - 3] == ':',
        exists|m: int| 0 <= m < 12 && t.take(3) == #[trigger] short_month_names()[m],
{
}

} // verus!
