//! Shapes the store's replies: a reply is a list of statement results, and the
//! callers of this crate want rows, one batch of rows, or one single row.

use vstd::prelude::*;

verus! {

/// One named value of a row, the value in the store's own rendering.
#[derive(Debug, PartialEq, Eq)]
struct Field {
    name: String,
    value: String,
}

/// A record of the store: a mapping from field names to values, each value
/// in the store's own rendering. Under `==` two rows are equal when they
/// got the same fields in the same order.
#[derive(Debug, PartialEq, Eq)]
pub struct Row {
    fields: Vec<Field>,
}

/// One element of a row array.
#[derive(Debug, PartialEq, Eq)]
pub enum Cell {
    /// A record.
    Object(Row),
    /// Anything that is not a record, as the store renders it.
    Scalar(String),
}

/// What one statement of a query came to.
#[derive(Debug, PartialEq, Eq)]
pub enum StatementResult {
    /// An array of values, ideally records.
    Rows(Vec<Cell>),
    /// A single value that is not an array, as the store renders it.
    Scalar(String),
    /// The store failed the statement, with its message.
    Failed(String),
}

/// What the store handed back for one submitted query.
#[derive(Debug, PartialEq, Eq)]
pub enum Reply {
    /// The store took the query and answered each of its statements.
    Answered(Vec<StatementResult>),
    /// The store refused the query as a whole, with its message.
    Refused(String),
}

/// Why a reply could not be brought into the shape a caller asked for.
#[derive(Debug, PartialEq, Eq)]
pub enum QueryError {
    /// The store answered with no statement result at all.
    EmptyResponse,
    /// The store failed the query or one of its statements.
    StoreFailure(String),
    /// The value at `batch` is no array (`row` is `None`), or its element at
    /// `row` is no record. `found` is the offending value.
    ShapeMismatch { batch: usize, row: Option<usize>, found: String },
    /// More than one statement result where one was expected.
    TooManyBatches,
    /// More than one row where one was expected.
    TooManyRows,
    /// No row where one was expected.
    NoSuchRow,
}

/// The field of `fields` at `i` is called `name`.
spec fn names(fields: Seq<Field>, name: Seq<char>, i: int) -> bool {
    0 <= i < fields.len() && fields[i].name@ == name
}

impl Row {
    #[verifier::type_invariant]
    spec fn distinct_names(self) -> bool {
        forall|i: int, j: int|
            0 <= i < j < self.fields@.len() ==> self.fields@[i].name@ != self.fields@[j].name@
    }

    /// The mapping that the row stands for.
    pub closed spec fn view(&self) -> Map<Seq<char>, Seq<char>> {
        Map::new(
            |k: Seq<char>| exists|i: int| names(self.fields@, k, i),
            |k: Seq<char>| self.fields@[choose|i: int| names(self.fields@, k, i)].value@,
        )
    }

    /// A row without fields.
    pub fn new() -> (row: Row)
        ensures
            row@ == Map::<Seq<char>, Seq<char>>::empty(),
    {
        let row = Row { fields: Vec::new() };
        assert(row@ =~= Map::<Seq<char>, Seq<char>>::empty());
        row
    }

    /// Position of the field called `name`.
    fn position(&self, name: &String) -> (at: Option<usize>)
        ensures
            match at {
                Some(i) => names(self.fields@, name@, i as int),
                None => forall|i: int| !names(self.fields@, name@, i),
            },
    {
        let mut i: usize = 0;
        while i < self.fields.len()
            invariant
                i <= self.fields.len(),
                forall|j: int| 0 <= j < i ==> !names(self.fields@, name@, j),
            decreases self.fields.len() - i,
        {
            if self.fields[i].name == *name {
                return Some(i);
            }
            i += 1;
        }
        None
    }

    /// The row with the field `name` set to `value`, whether or not it had one.
    pub fn with(self, name: String, value: String) -> (row: Row)
        ensures
            row@ == self@.insert(name@, value@),
    {
        proof {
            use_type_invariant(&self);
        }
        let at = self.position(&name);
        let ghost before = self.fields@;
        let mut fields = self.fields;
        match at {
            Some(i) => {
                fields.set(i, Field { name, value });
            },
            None => {
                fields.push(Field { name, value });
            },
        }
        proof {
            assert forall|a: int, b: int| 0 <= a < b < fields@.len() implies fields@[a].name@
                != fields@[b].name@ by {
                if at is None && b == before.len() {
                    assert(!names(before, name@, a));
                } else {
                    assert(before[a].name@ != before[b].name@);
                }
            }
        }
        let row = Row { fields };
        proof {
            let after = row.fields@;
            let target = self@.insert(name@, value@);
            assert forall|k: Seq<char>| #[trigger] row@.contains_key(k) <==> target.contains_key(
                k,
            ) by {
                if row@.contains_key(k) {
                    let j = choose|j: int| names(after, k, j);
                    if k != name@ {
                        assert(names(before, k, j));
                    }
                }
                if target.contains_key(k) {
                    if k == name@ {
                        match at {
                            Some(i) => {
                                assert(names(after, k, i as int));
                            },
                            None => {
                                assert(names(after, k, before.len() as int));
                            },
                        }
                    } else {
                        let j = choose|j: int| names(before, k, j);
                        assert(names(after, k, j));
                    }
                }
            }
            assert forall|k: Seq<char>| #[trigger] row@.contains_key(k) implies row@[k]
                == target[k] by {
                let j = choose|j: int| names(after, k, j);
                if k != name@ {
                    let j0 = choose|j: int| names(before, k, j);
                    assert(names(before, k, j));
                    assert(j == j0);
                }
            }
            assert(row@ =~= target);
        }
        row
    }

    /// The value of the field `name`.
    pub fn get(&self, name: &str) -> (value: Option<&String>)
        ensures
            match value {
                Some(v) => self@.contains_key(name@) && v@ == self@[name@],
                None => !self@.contains_key(name@),
            },
    {
        proof {
            use_type_invariant(self);
        }
        let key = name.to_owned();
        match self.position(&key) {
            Some(i) => Some(&self.fields[i].value),
            None => None,
        }
    }
}

/// Index of the first failed statement at or after `from`; the length where
/// there is none.
pub open spec fn first_failed(results: Seq<StatementResult>, from: int) -> int
    decreases results.len() - from,
{
    if from < 0 || from >= results.len() {
        results.len() as int
    } else if results[from] is Failed {
        from
    } else {
        first_failed(results, from + 1)
    }
}

/// Index of the first element at or after `from` that is no record; the
/// length where there is none.
pub open spec fn first_scalar(cells: Seq<Cell>, from: int) -> int
    decreases cells.len() - from,
{
    if from < 0 || from >= cells.len() {
        cells.len() as int
    } else if cells[from] is Scalar {
        from
    } else {
        first_scalar(cells, from + 1)
    }
}

/// A statement result is well shaped when it is an array of records.
pub open spec fn well_shaped(result: StatementResult) -> bool {
    result matches StatementResult::Rows(cells) && first_scalar(cells@, 0) == cells@.len()
}

/// Index of the first statement result at or after `from` that is not well
/// shaped; the length where there is none.
pub open spec fn first_misshapen(results: Seq<StatementResult>, from: int) -> int
    decreases results.len() - from,
{
    if from < 0 || from >= results.len() {
        results.len() as int
    } else if !well_shaped(results[from]) {
        from
    } else {
        first_misshapen(results, from + 1)
    }
}

/// The records of an array whose elements are all records.
pub open spec fn records(cells: Seq<Cell>) -> Seq<Row> {
    Seq::new(cells.len(), |i: int| cells[i]->Object_0)
}

/// The batches of a reply whose statement results are all well shaped.
pub open spec fn batches(results: Seq<StatementResult>) -> Seq<Seq<Row>> {
    Seq::new(results.len(), |i: int| records(results[i]->Rows_0@))
}

/// The failure that the statement result at `at`, which is not well shaped,
/// is reported with.
pub open spec fn mismatch(results: Seq<StatementResult>, at: int) -> QueryError {
    match results[at] {
        StatementResult::Rows(cells) => {
            let row = first_scalar(cells@, 0);
            QueryError::ShapeMismatch {
                batch: at as usize,
                row: Some(row as usize),
                found: cells@[row]->Scalar_0,
            }
        },
        StatementResult::Scalar(found) => QueryError::ShapeMismatch {
            batch: at as usize,
            row: None,
            found,
        },
        StatementResult::Failed(message) => QueryError::StoreFailure(message),
    }
}

/// What a reply comes to: its batches of rows, or the first reason why it has
/// none. A failure of the store goes before any fault of shape.
pub open spec fn normalized(reply: Reply) -> Result<Seq<Seq<Row>>, QueryError> {
    match reply {
        Reply::Refused(message) => Err(QueryError::StoreFailure(message)),
        Reply::Answered(answer) => {
            let results = answer@;
            let failed = first_failed(results, 0);
            let misshapen = first_misshapen(results, 0);
            if results.len() == 0 {
                Err(QueryError::EmptyResponse)
            } else if failed < results.len() {
                Err(QueryError::StoreFailure(results[failed]->Failed_0))
            } else if misshapen < results.len() {
                Err(mismatch(results, misshapen))
            } else {
                Ok(batches(results))
            }
        },
    }
}

/// What a reply comes to for a caller that sent one statement.
pub open spec fn single_batch(reply: Reply) -> Result<Seq<Row>, QueryError> {
    match normalized(reply) {
        Err(e) => Err(e),
        Ok(all) => if all.len() > 1 {
            Err(QueryError::TooManyBatches)
        } else {
            Ok(all[0])
        },
    }
}

/// What a reply comes to for a caller that sent one statement and looks for
/// one row.
pub open spec fn single_row(reply: Reply) -> Result<Row, QueryError> {
    match single_batch(reply) {
        Err(e) => Err(e),
        Ok(rows) => if rows.len() > 1 {
            Err(QueryError::TooManyRows)
        } else if rows.len() == 0 {
            Err(QueryError::NoSuchRow)
        } else {
            Ok(rows[0])
        },
    }
}

/// The three readings of a reply narrow one another: a failure of a wider
/// reading is the failure of every narrower one, and each narrower reading
/// adds failures of its own only: a second batch, then a second row or none.
pub proof fn law_readings_narrow(reply: Reply)
    ensures
        normalized(reply) matches Err(e) ==> single_batch(reply) == Err::<Seq<Row>, QueryError>(e),
        single_batch(reply) matches Err(e) ==> single_row(reply) == Err::<Row, QueryError>(e),
        normalized(reply) matches Ok(all) ==> all.len() >= 1 && (single_batch(reply) is Ok
            <==> all.len() == 1),
        single_batch(reply) matches Ok(rows) ==> (single_row(reply) is Ok <==> rows.len() == 1),
        single_row(reply) matches Ok(row) ==> normalized(reply) == Ok::<
            Seq<Seq<Row>>,
            QueryError,
        >(seq![seq![row]]),
{
    if let Ok(row) = single_row(reply) {
        let all = normalized(reply)->Ok_0;
        assert(all[0] =~= seq![row]);
        assert(all =~= seq![seq![row]]);
    }
}

/// The rows of executable batches, as sequences.
pub open spec fn rows_of(all: Vec<Vec<Row>>) -> Seq<Seq<Row>> {
    Seq::new(all@.len(), |i: int| all@[i]@)
}

/// Takes the records out of a row array, or reports the first element that
/// is no record.
fn collect_records(cells: Vec<Cell>) -> (out: Result<Vec<Row>, (usize, String)>)
    ensures
        match out {
            Ok(rows) => first_scalar(cells@, 0) == cells@.len() && rows@ == records(cells@),
            Err((at, found)) => first_scalar(cells@, 0) == at && at < cells@.len() && cells@[at as int]
                == Cell::Scalar(found),
        },
{
    let ghost all = cells@;
    let mut rows: Vec<Row> = Vec::new();
    for cell in it: cells.into_iter()
        invariant
            it.seq() == all,
            rows.len() == it.index(),
            first_scalar(all, 0) == first_scalar(all, it.index() as int),
            forall|i: int| 0 <= i < rows.len() ==> all[i] == Cell::Object(#[trigger] rows@[i]),
    {
        match cell {
            Cell::Object(row) => {
                rows.push(row);
            },
            Cell::Scalar(found) => {
                return Err((rows.len(), found));
            },
        }
    }
    assert(rows@ =~= records(all));
    Ok(rows)
}

/// Brings a reply into batches of rows.
pub fn normalize(reply: Reply) -> (out: Result<Vec<Vec<Row>>, QueryError>)
    ensures
        match out {
            Ok(all) => normalized(reply) == Ok::<Seq<Seq<Row>>, QueryError>(rows_of(all)),
            Err(e) => normalized(reply) == Err::<Seq<Seq<Row>>, QueryError>(e),
        },
{
    let results = match reply {
        Reply::Refused(message) => {
            return Err(QueryError::StoreFailure(message));
        },
        Reply::Answered(results) => results,
    };
    if results.len() == 0 {
        return Err(QueryError::EmptyResponse);
    }
    let ghost answer = results;
    let ghost all = results@;
    let mut i: usize = 0;
    while i < results.len()
        invariant
            i <= results.len(),
            all == results@,
            reply == Reply::Answered(results),
            first_failed(all, 0) == first_failed(all, i as int),
            forall|j: int| 0 <= j < i ==> !(all[j] is Failed),
        decreases results.len() - i,
    {
        match &results[i] {
            StatementResult::Failed(message) => {
                return Err(QueryError::StoreFailure(message.clone()));
            },
            _ => {},
        }
        i += 1;
    }
    let mut out: Vec<Vec<Row>> = Vec::new();
    for result in it: results.into_iter()
        invariant
            it.seq() == all,
            out.len() == it.index(),
            reply == Reply::Answered(answer),
            answer@ == all,
            all.len() > 0,
            first_failed(all, 0) == all.len(),
            forall|j: int| 0 <= j < all.len() ==> !(all[j] is Failed),
            first_misshapen(all, 0) == first_misshapen(all, it.index() as int),
            forall|j: int| 0 <= j < out.len() ==> (#[trigger] out@[j])@ == records(all[j]->Rows_0@),
    {
        match result {
            StatementResult::Rows(cells) => {
                match collect_records(cells) {
                    Ok(rows) => {
                        out.push(rows);
                    },
                    Err((row, found)) => {
                        return Err(
                            QueryError::ShapeMismatch { batch: out.len(), row: Some(row), found },
                        );
                    },
                }
            },
            StatementResult::Scalar(found) => {
                return Err(QueryError::ShapeMismatch { batch: out.len(), row: None, found });
            },
            StatementResult::Failed(message) => {
                return Err(QueryError::StoreFailure(message));
            },
        }
    }
    assert(rows_of(out) =~= batches(all));
    Ok(out)
}

/// Brings a reply into the rows of its only batch.
pub fn expect_single_batch(reply: Reply) -> (out: Result<Vec<Row>, QueryError>)
    ensures
        match out {
            Ok(rows) => single_batch(reply) == Ok::<Seq<Row>, QueryError>(rows@),
            Err(e) => single_batch(reply) == Err::<Seq<Row>, QueryError>(e),
        },
{
    let mut all = normalize(reply)?;
    if all.len() > 1 {
        return Err(QueryError::TooManyBatches);
    }
    match all.pop() {
        Some(rows) => Ok(rows),
        None => Err(QueryError::EmptyResponse),
    }
}

/// Brings a reply into the only row of its only batch.
pub fn expect_single_row(reply: Reply) -> (out: Result<Row, QueryError>)
    ensures
        out == single_row(reply),
{
    let mut rows = expect_single_batch(reply)?;
    if rows.len() > 1 {
        return Err(QueryError::TooManyRows);
    }
    match rows.pop() {
        Some(row) => Ok(row),
        None => Err(QueryError::NoSuchRow),
    }
}

} // verus!
