//! Row records: the cells of one table row under their column names.

use vstd::prelude::*;

verus! {

/// One cell of a row together with the header of its column.
#[derive(Clone, Debug, PartialEq, Eq)]
pub struct Field {
    pub name: String,
    pub value: String,
}

impl View for Field {
    type V = (Seq<char>, Seq<char>);

    open spec fn view(&self) -> (Seq<char>, Seq<char>) {
        (self.name@, self.value@)
    }
}

/// One parsed table row: raw cell texts, never trimmed, in column order.
#[derive(Clone, Debug, PartialEq, Eq)]
pub struct RowRecord {
    pub fields: Vec<Field>,
}

impl View for RowRecord {
    type V = Seq<(Seq<char>, Seq<char>)>;

    open spec fn view(&self) -> Seq<(Seq<char>, Seq<char>)> {
        self.fields@.map_values(|f: Field| f@)
    }
}

/// The raw text of the first field called `name`, or the empty text where
/// the row has no such field.
pub open spec fn value_of(fields: Seq<(Seq<char>, Seq<char>)>, name: Seq<char>) -> Seq<char>
    decreases fields.len(),
{
    if fields.len() == 0 {
        Seq::empty()
    } else if fields.first().0 == name {
        fields.first().1
    } else {
        value_of(fields.drop_first(), name)
    }
}

/// The row that pairs each header with the cell below it.
pub open spec fn paired(header: Seq<Seq<char>>, cells: Seq<Seq<char>>) -> Seq<(Seq<char>, Seq<char>)>
    recommends
        header.len() == cells.len(),
{
    Seq::new(header.len(), |i: int| (header[i], cells[i]))
}

impl RowRecord {
    /// The record of a row whose cells stand under the given headers; `None`
    /// where there are more or fewer cells than headers.
    pub fn from_columns(header: &Vec<String>, cells: &Vec<String>) -> (record: Option<RowRecord>)
        ensures
            record matches Some(r) ==> header.len() == cells.len() && r@ == paired(
                header.deep_view(),
                cells.deep_view(),
            ),
            record is None ==> header.len() != cells.len(),
    {
        if header.len() != cells.len() {
            return None;
        }
        let mut fields: Vec<Field> = Vec::new();
        let mut i: usize = 0;
        while i < header.len()
            invariant
                header.len() == cells.len(),
                i <= header.len(),
                fields.len() == i,
                forall|k: int| 0 <= k < i ==> (#[trigger] fields[k])@ == (header[k]@, cells[k]@),
            decreases header.len() - i,
        {
            fields.push(Field { name: header[i].clone(), value: cells[i].clone() });
            i += 1;
        }
        let record = RowRecord { fields };
        assert(record@ =~= paired(header.deep_view(), cells.deep_view()));
        Some(record)
    }

    /// The raw text of the first field called `name`; empty where there is none.
    pub fn get(&self, name: &String) -> (value: &str)
        ensures
            value@ == value_of(self@, name@),
    {
        let mut i: usize = 0;
        assert(self@.skip(0) =~= self@);
        while i < self.fields.len()
            invariant
                i <= self.fields.len(),
                value_of(self@, name@) == value_of(self@.skip(i as int), name@),
            decreases self.fields.len() - i,
        {
            let ghost rest = self@.skip(i as int);
            assert(rest.first() == self.fields[i as int]@);
            assert(rest.drop_first() =~= self@.skip(i + 1));
            if self.fields[i].name == *name {
                return self.fields[i].value.as_str();
            }
            i += 1;
        }
        proof {
            reveal_strlit("");
        }
        ""
    }
}

} // verus!
