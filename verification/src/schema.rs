//! The canonical columns that source columns are brought to.
use vstd::prelude::*;

use crate::table::SemanticField;
use crate::text::same;

verus! {

/// One canonical column: its storage name, its header and its meaning.
#[derive(Clone, Debug)]
pub struct SchemaColumn {
    pub name: String,
    pub header: String,
    pub semantic: Option<SemanticField>,
}

/// The canonical columns in their order, which of them holds the date, and the
/// name of the column that each meaning is stored in.
#[derive(Clone, Debug)]
pub struct Schema {
    pub columns: Vec<SchemaColumn>,
    pub date_col: usize,
    pub targets: Vec<(SemanticField, String)>,
}

/// The first of some columns with a name.
pub open spec fn place_of_name(columns: Seq<SchemaColumn>, name: Seq<char>) -> Option<int>
    decreases columns.len(),
{
    if columns.len() == 0 {
        None
    } else {
        match place_of_name(columns.drop_last(), name) {
            Some(i) => Some(i),
            None => if columns.last().name@ == name {
                Some(columns.len() - 1)
            } else {
                None
            },
        }
    }
}

/// The place of a named column is in range, and carries the name.
pub proof fn place_in_range(columns: Seq<SchemaColumn>, name: Seq<char>)
    ensures
        place_of_name(columns, name) matches Some(i) ==> 0 <= i < columns.len() && columns[i].name@
            == name,
    decreases columns.len(),
{
    if columns.len() > 0 {
        place_in_range(columns.drop_last(), name);
    }
}

/// The name of the column that a meaning is stored in: the first one listed.
pub open spec fn name_for(targets: Seq<(SemanticField, String)>, semantic: SemanticField) -> Option<
    Seq<char>,
>
    decreases targets.len(),
{
    if targets.len() == 0 {
        None
    } else {
        match name_for(targets.drop_last(), semantic) {
            Some(name) => Some(name),
            None => if targets.last().0 == semantic {
                Some(targets.last().1@)
            } else {
                None
            },
        }
    }
}

impl Schema {
    /// The date column is one of the columns.
    pub open spec fn wf(&self) -> bool {
        self.date_col < self.columns@.len()
    }

    /// The place of a named column.
    pub open spec fn place(&self, name: Seq<char>) -> Option<int> {
        place_of_name(self.columns@, name)
    }

    /// The name of the column that a meaning is stored in.
    pub open spec fn storage_name(&self, semantic: SemanticField) -> Option<Seq<char>> {
        name_for(self.targets@, semantic)
    }

    /// The place of the column that a meaning is stored in.
    pub open spec fn target(&self, semantic: SemanticField) -> Option<int> {
        match self.storage_name(semantic) {
            Some(name) => self.place(name),
            None => None,
        }
    }

    /// Finds a column by its name.
    pub fn position(&self, name: &str) -> (r: Option<usize>)
        ensures
            match r {
                Some(i) => self.place(name@) == Some(i as int) && i < self.columns@.len(),
                None => self.place(name@) is None,
            },
    {
        let mut i: usize = 0;
        assert(self.columns@.take(0) =~= Seq::<SchemaColumn>::empty());
        while i < self.columns.len()
            invariant
                i <= self.columns@.len(),
                place_of_name(self.columns@.take(i as int), name@) is None,
            decreases self.columns.len() - i,
        {
            let ghost upto = self.columns@.take(i + 1);
            assert(upto.drop_last() =~= self.columns@.take(i as int));
            assert(upto.last() == self.columns@[i as int]);
            if same(self.columns[i].name.as_str(), name) {
                proof {
                    self.first_place_stays(name@, i + 1);
                }
                return Some(i);
            }
            i += 1;
        }
        assert(self.columns@.take(i as int) =~= self.columns@);
        None
    }

    /// A name found among the first columns is found there among all.
    proof fn first_place_stays(&self, name: Seq<char>, n: int)
        requires
            0 <= n <= self.columns@.len(),
            place_of_name(self.columns@.take(n), name) is Some,
        ensures
            self.place(name) == place_of_name(self.columns@.take(n), name),
        decreases self.columns@.len() - n,
    {
        if n < self.columns@.len() {
            assert(self.columns@.take(n + 1).drop_last() =~= self.columns@.take(n));
            self.first_place_stays(name, n + 1);
        } else {
            assert(self.columns@.take(n) =~= self.columns@);
        }
    }

    /// The name of the column that a meaning is stored in.
    pub fn column_for_semantic(&self, semantic: SemanticField) -> (r: Option<&str>)
        ensures
            match r {
                Some(name) => self.storage_name(semantic) == Some(name@),
                None => self.storage_name(semantic) is None,
            },
    {
        let mut i: usize = 0;
        assert(self.targets@.take(0) =~= Seq::<(SemanticField, String)>::empty());
        while i < self.targets.len()
            invariant
                i <= self.targets@.len(),
                name_for(self.targets@.take(i as int), semantic) is None,
            decreases self.targets.len() - i,
        {
            let ghost upto = self.targets@.take(i + 1);
            assert(upto.drop_last() =~= self.targets@.take(i as int));
            assert(upto.last() == self.targets@[i as int]);
            if self.targets[i].0 == semantic {
                proof {
                    self.first_name_stays(semantic, i + 1);
                }
                return Some(self.targets[i].1.as_str());
            }
            i += 1;
        }
        assert(self.targets@.take(i as int) =~= self.targets@);
        None
    }

    /// A name found among the first targets is found among all.
    proof fn first_name_stays(&self, semantic: SemanticField, n: int)
        requires
            0 <= n <= self.targets@.len(),
            name_for(self.targets@.take(n), semantic) is Some,
        ensures
            self.storage_name(semantic) == name_for(self.targets@.take(n), semantic),
        decreases self.targets@.len() - n,
    {
        if n < self.targets@.len() {
            assert(self.targets@.take(n + 1).drop_last() =~= self.targets@.take(n));
            self.first_name_stays(semantic, n + 1);
        } else {
            assert(self.targets@.take(n) =~= self.targets@);
        }
    }

    /// The meaning that the schema gives its column of a name.
    pub open spec fn semantic_of(&self, name: Seq<char>) -> Option<SemanticField> {
        match self.place(name) {
            Some(i) => self.columns@[i].semantic,
            None => None,
        }
    }

    /// The meaning that the schema gives its column of a name.
    pub fn semantic_for_column(&self, name: &str) -> (r: Option<SemanticField>)
        ensures
            r == self.semantic_of(name@),
    {
        match self.position(name) {
            Some(i) => self.columns[i].semantic,
            None => None,
        }
    }
}

/// A name stands for the first column that has it, and for none where no column
/// has it.
pub proof fn a_name_stands_for_its_first_column(columns: Seq<SchemaColumn>, name: Seq<char>)
    ensures
        match place_of_name(columns, name) {
            Some(i) => 0 <= i < columns.len() && columns[i].name@ == name && forall|j: int|
                0 <= j < i ==> (#[trigger] columns[j]).name@ != name,
            None => forall|j: int| 0 <= j < columns.len() ==> (#[trigger] columns[j]).name@ != name,
        },
    decreases columns.len(),
{
    if columns.len() > 0 {
        let front = columns.drop_last();
        a_name_stands_for_its_first_column(front, name);
        assert forall|j: int| 0 <= j < front.len() implies front[j] == columns[j] by {}
        match place_of_name(front, name) {
            Some(i) => {
                assert(front[i] == columns[i]);
            },
            None => {
                assert forall|j: int| 0 <= j < columns.len() - 1 implies (
                #[trigger] columns[j]).name@ != name by {
                    assert(front[j].name@ != name);
                }
            },
        }
    }
}

} // verus!
