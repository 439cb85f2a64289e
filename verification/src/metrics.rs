//! Metric collection: named CSV tables filled row by row during a run.
//! The registry renders each enabled, non-empty table to CSV bytes on
//! `finish`; writing the files to disk is the caller's business.

use vstd::prelude::*;

verus! {

/// The exact byte encoding csv's writer produces for a header line
/// `columns` followed by `rows`, one record per line.
pub uninterp spec fn csv_encoding(columns: Seq<Seq<char>>, rows: Seq<Seq<Seq<char>>>) -> Seq<u8>;

/// Relies on csv's writer over an in-memory buffer (flexible record
/// lengths): encodes the header and then every row, one record each;
/// the bytes depend on the records alone.
#[verifier::external_body]
fn csv_encode(columns: &Vec<String>, rows: &Vec<Vec<String>>) -> (r: Vec<u8>)
    ensures
        r@ == csv_encoding(columns.deep_view(), rows.deep_view()),
{
    let mut w = csv::WriterBuilder::new().flexible(true).from_writer(Vec::new());
    let _ = w.write_record(columns.iter());
    for row in rows.iter() {
        let _ = w.write_record(row.iter());
    }
    w.into_inner().unwrap_or_default()
}

pub open spec fn spec_digit(d: int) -> char {
    if d == 0 {
        '0'
    } else if d == 1 {
        '1'
    } else if d == 2 {
        '2'
    } else if d == 3 {
        '3'
    } else if d == 4 {
        '4'
    } else if d == 5 {
        '5'
    } else if d == 6 {
        '6'
    } else if d == 7 {
        '7'
    } else if d == 8 {
        '8'
    } else {
        '9'
    }
}

/// The decimal digits of `n`, most significant first, no sign, no
/// padding.
pub open spec fn spec_u64_decimal(n: nat) -> Seq<char>
    decreases n,
{
    if n < 10 {
        seq![spec_digit(n as int)]
    } else {
        spec_u64_decimal(n / 10).push(spec_digit((n % 10) as int))
    }
}

/// The decimal digit character for `d`.
fn digit_str(d: u64) -> (r: &'static str)
    requires
        d < 10,
    ensures
        r@ =~= seq![spec_digit(d as int)],
{
    proof {
        reveal_strlit("0");
        reveal_strlit("1");
        reveal_strlit("2");
        reveal_strlit("3");
        reveal_strlit("4");
        reveal_strlit("5");
        reveal_strlit("6");
        reveal_strlit("7");
        reveal_strlit("8");
        reveal_strlit("9");
    }
    match d {
        0 => "0",
        1 => "1",
        2 => "2",
        3 => "3",
        4 => "4",
        5 => "5",
        6 => "6",
        7 => "7",
        8 => "8",
        _ => "9",
    }
}

/// Append the decimal digits of `n` to `out`, most significant first.
fn push_decimal(n: u64, out: &mut String)
    ensures
        final(out)@ == old(out)@ + spec_u64_decimal(n as nat),
    decreases n,
{
    if n < 10 {
        out.append(digit_str(n));
        proof {
            assert(final(out)@ =~= old(out)@ + spec_u64_decimal(n as nat));
        }
    } else {
        push_decimal(n / 10, out);
        out.append(digit_str(n % 10));
        proof {
            assert(final(out)@ =~= old(out)@ + spec_u64_decimal(n as nat));
        }
    }
}

/// The plain decimal representation of `x`.
pub fn u64_to_string(x: u64) -> (r: String)
    ensures
        r@ == spec_u64_decimal(x as nat),
{
    let mut r = String::new();
    push_decimal(x, &mut r);
    proof {
        assert(Seq::<char>::empty() + spec_u64_decimal(x as nat) =~= spec_u64_decimal(x as nat));
    }
    r
}

/// Renders an optional value the way the metric tables do: the decimal
/// digits, or `nan` for an absent value.
pub fn option_to_string(x: Option<u64>) -> (r: String)
    ensures
        match x {
            Some(v) => r@ == spec_u64_decimal(v as nat),
            None => r@ == "nan"@,
        },
{
    match x {
        Some(v) => u64_to_string(v),
        None => "nan".to_owned(),
    }
}

/// A metric that can say whether it is enabled, name itself, and render
/// itself to a file body.
pub trait Metric: Sized {
    spec fn enabled_spec(&self) -> bool;

    spec fn name_spec(&self) -> Seq<char>;

    spec fn columns_spec(&self) -> Seq<Seq<char>>;

    spec fn rows_spec(&self) -> Seq<Seq<Seq<char>>>;

    fn enable(&self) -> (r: bool)
        ensures
            r == self.enabled_spec(),
    ;

    fn name(&self) -> (r: &String)
        ensures
            r@ == self.name_spec(),
    ;

    /// The file to write for this metric: its name and CSV bytes, or
    /// nothing when the metric is disabled or empty.
    fn export(&self) -> (r: Option<(String, Vec<u8>)>)
        ensures
            match r {
                Some(f) => self.enabled_spec() && self.rows_spec().len() > 0 && f.0@
                    == self.name_spec() && f.1@ == csv_encoding(
                    self.columns_spec(),
                    self.rows_spec(),
                ),
                None => !(self.enabled_spec() && self.rows_spec().len() > 0),
            },
    ;
}

/// A named CSV table filled row by row.
pub struct CsvMetric {
    name: String,
    enable: bool,
    columns: Vec<String>,
    rows: Vec<Vec<String>>,
}

impl Metric for CsvMetric {
    closed spec fn enabled_spec(&self) -> bool {
        self.enable
    }

    closed spec fn name_spec(&self) -> Seq<char> {
        self.name@
    }

    closed spec fn columns_spec(&self) -> Seq<Seq<char>> {
        self.columns.deep_view()
    }

    closed spec fn rows_spec(&self) -> Seq<Seq<Seq<char>>> {
        self.rows.deep_view()
    }

    fn enable(&self) -> (r: bool) {
        self.enable
    }

    fn name(&self) -> (r: &String) {
        &self.name
    }

    fn export(&self) -> (r: Option<(String, Vec<u8>)>) {
        if !self.enable || self.rows.len() == 0 {
            return None;
        }
        let body = csv_encode(&self.columns, &self.rows);
        Some((self.name.clone(), body))
    }
}

impl CsvMetric {
    pub fn new(name: String, enable: bool, columns: Vec<String>) -> (m: CsvMetric)
        ensures
            m.enabled_spec() == enable,
            m.name_spec() == name@,
            m.columns_spec() == columns.deep_view(),
            m.rows_spec() =~= Seq::<Seq<Seq<char>>>::empty(),
    {
        CsvMetric { name, enable, columns, rows: Vec::new() }
    }

    /// Append one row to the table.
    pub fn log(&mut self, row: Vec<String>)
        ensures
            final(self).enabled_spec() == old(self).enabled_spec(),
            final(self).name_spec() == old(self).name_spec(),
            final(self).columns_spec() == old(self).columns_spec(),
            final(self).rows_spec() == old(self).rows_spec().push(row.deep_view()),
    {
        self.rows.push(row);
        proof {
            assert(self.rows.deep_view() =~= old(self).rows.deep_view().push(row.deep_view()));
        }
    }
}

/// One metric-selection rule from the configuration file.
#[derive(Clone, Debug)]
pub struct MetricFilter {
    pub regex: String,
    pub enabled: bool,
}

/// Metric configuration: where files go and which metrics are enabled.
#[derive(Clone, Debug)]
pub struct MetricConfig {
    pub data_dir: String,
    pub filters: Vec<MetricFilter>,
}

/// The names of the files `finish` renders, in registration order:
/// one entry per enabled, non-empty metric.
pub open spec fn spec_export_names(s: Seq<CsvMetric>) -> Seq<Seq<char>>
    decreases s.len(),
{
    if s.len() == 0 {
        Seq::empty()
    } else if s.last().enabled_spec() && s.last().rows_spec().len() > 0 {
        spec_export_names(s.drop_last()).push(s.last().name_spec())
    } else {
        spec_export_names(s.drop_last())
    }
}

/// The bodies of the files `finish` renders, aligned with
/// `spec_export_names`.
pub open spec fn spec_export_bodies(s: Seq<CsvMetric>) -> Seq<Seq<u8>>
    decreases s.len(),
{
    if s.len() == 0 {
        Seq::empty()
    } else if s.last().enabled_spec() && s.last().rows_spec().len() > 0 {
        spec_export_bodies(s.drop_last()).push(
            csv_encoding(s.last().columns_spec(), s.last().rows_spec()),
        )
    } else {
        spec_export_bodies(s.drop_last())
    }
}

/// Owns every registered metric; handles are indices in registration
/// order.
pub struct MetricRegistry {
    config: MetricConfig,
    csv_metrics: Vec<CsvMetric>,
}

impl MetricRegistry {
    pub closed spec fn metrics_view(self) -> Seq<CsvMetric> {
        self.csv_metrics@
    }

    pub closed spec fn data_dir_spec(self) -> Seq<char> {
        self.config.data_dir@
    }

    pub fn new(config: MetricConfig) -> (r: MetricRegistry)
        ensures
            r.metrics_view() =~= Seq::<CsvMetric>::empty(),
            r.data_dir_spec() == config.data_dir@,
    {
        MetricRegistry { config, csv_metrics: Vec::new() }
    }

    pub fn data_dir(&self) -> (r: &String)
        ensures
            r@ == self.data_dir_spec(),
    {
        &self.config.data_dir
    }

    /// Register a CSV metric under `passed_name` and return its handle.
    /// A name already registered keeps its first registration; the new
    /// columns are ignored, as the caller is re-attaching to it.
    #[verifier::loop_isolation(false)]
    pub fn register_csv_metric(&mut self, passed_name: &str, columns: Vec<String>) -> (h: Option<
        usize,
    >)
        ensures
            h matches Some(i) && i < final(self).metrics_view().len(),
            h matches Some(i) ==> final(self).metrics_view()[i as int].name_spec()
                == passed_name@,
            final(self).data_dir_spec() == old(self).data_dir_spec(),
            (exists|j: int|
                0 <= j < old(self).metrics_view().len()
                    && (#[trigger] old(self).metrics_view()[j]).name_spec() == passed_name@)
                ==> final(self).metrics_view() == old(self).metrics_view(),
            (forall|j: int|
                0 <= j < old(self).metrics_view().len()
                    ==> (#[trigger] old(self).metrics_view()[j]).name_spec() != passed_name@) ==> {
                &&& final(self).metrics_view().len() == old(self).metrics_view().len() + 1
                &&& final(self).metrics_view().drop_last() == old(self).metrics_view()
                &&& final(self).metrics_view().last().enabled_spec()
                &&& final(self).metrics_view().last().name_spec() == passed_name@
                &&& final(self).metrics_view().last().columns_spec() == columns.deep_view()
                &&& final(self).metrics_view().last().rows_spec().len() == 0
            },
    {
        let name: String = passed_name.to_owned();
        let n = self.csv_metrics.len();
        let mut i: usize = 0;
        while i < n
            invariant
                0 <= i <= n,
                forall|j: int|
                    0 <= j < i ==> (#[trigger] self.csv_metrics@[j]).name_spec() != passed_name@,
            decreases n - i,
        {
            if *self.csv_metrics[i].name() == name {
                return Some(i);
            }
            i = i + 1;
        }
        let metric = CsvMetric::new(name, true, columns);
        self.csv_metrics.push(metric);
        proof {
            assert(self.csv_metrics@.drop_last() =~= old(self).csv_metrics@);
        }
        Some(n)
    }

    /// Append a row to the metric behind `handle`.
    pub fn log(&mut self, handle: usize, row: Vec<String>)
        requires
            handle < old(self).metrics_view().len(),
        ensures
            final(self).data_dir_spec() == old(self).data_dir_spec(),
            final(self).metrics_view().len() == old(self).metrics_view().len(),
            ({
                let m0 = old(self).metrics_view()[handle as int];
                let m1 = final(self).metrics_view()[handle as int];
                &&& m1.rows_spec() == m0.rows_spec().push(row.deep_view())
                &&& m1.name_spec() == m0.name_spec()
                &&& m1.enabled_spec() == m0.enabled_spec()
                &&& m1.columns_spec() == m0.columns_spec()
            }),
            forall|j: int|
                0 <= j < old(self).metrics_view().len() && j != handle
                    ==> final(self).metrics_view()[j] == old(self).metrics_view()[j],
    {
        let m = &mut self.csv_metrics[handle];
        m.log(row);
    }

    /// Render every enabled, non-empty metric, in registration order:
    /// the files to write under the configured data directory.
    #[verifier::loop_isolation(false)]
    pub fn finish(&self) -> (files: Vec<(String, Vec<u8>)>)
        ensures
            files@.map_values(|f: (String, Vec<u8>)| f.0@) == spec_export_names(
                self.metrics_view(),
            ),
            files@.map_values(|f: (String, Vec<u8>)| f.1@) == spec_export_bodies(
                self.metrics_view(),
            ),
    {
        let n = self.csv_metrics.len();
        let mut files: Vec<(String, Vec<u8>)> = Vec::new();
        let mut i: usize = 0;
        proof {
            assert(self.csv_metrics@.subrange(0, 0) =~= Seq::<CsvMetric>::empty());
        }
        while i < n
            invariant
                0 <= i <= n,
                files@.map_values(|f: (String, Vec<u8>)| f.0@) == spec_export_names(
                    self.csv_metrics@.subrange(0, i as int),
                ),
                files@.map_values(|f: (String, Vec<u8>)| f.1@) == spec_export_bodies(
                    self.csv_metrics@.subrange(0, i as int),
                ),
            decreases n - i,
        {
            let ghost names_before = files@.map_values(|f: (String, Vec<u8>)| f.0@);
            let ghost bodies_before = files@.map_values(|f: (String, Vec<u8>)| f.1@);
            proof {
                let pre = self.csv_metrics@.subrange(0, i + 1);
                assert(pre.drop_last() =~= self.csv_metrics@.subrange(0, i as int));
                assert(pre.last() == self.csv_metrics@[i as int]);
            }
            match self.csv_metrics[i].export() {
                Some(f) => {
                    let ghost fv = f;
                    files.push(f);
                    proof {
                        assert(files@.map_values(|f: (String, Vec<u8>)| f.0@)
                            =~= names_before.push(fv.0@));
                        assert(files@.map_values(|f: (String, Vec<u8>)| f.1@)
                            =~= bodies_before.push(fv.1@));
                    }
                },
                None => {},
            }
            i = i + 1;
        }
        proof {
            assert(self.csv_metrics@.subrange(0, n as int) =~= self.csv_metrics@);
        }
        files
    }
}

} // verus!
