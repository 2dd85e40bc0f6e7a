//! The collection schema: where the compilers get every identifier from.

use crate::scan::{first_some, lemma_first_some_at, lemma_first_some_none};
use crate::text::{is_identifier, is_identifier_str};
use vstd::prelude::*;

verus! {

/// The declared type of a property: a scalar or a list of scalars.
#[derive(Clone, Copy, Debug, PartialEq, Eq, Structural)]
pub enum DataType {
    Bool,
    Int,
    Real,
    Text,
    BoolList,
    IntList,
    RealList,
    TextList,
}

/// One property of a collection.
#[derive(Debug)]
pub struct Property {
    pub index: u16,
    pub name: String,
    pub data_type: DataType,
}

/// What a [`Property`] stands for.
pub struct PropertyView {
    pub index: u16,
    pub name: Seq<char>,
    pub data_type: DataType,
}

impl View for Property {
    type V = PropertyView;

    open spec fn view(&self) -> PropertyView {
        PropertyView { index: self.index, name: self.name@, data_type: self.data_type }
    }
}

impl DeepView for Property {
    type V = PropertyView;

    open spec fn deep_view(&self) -> PropertyView {
        self@
    }
}

/// Why a schema was refused.
#[derive(Clone, Copy, Debug, PartialEq, Eq, Structural)]
pub enum SchemaError {
    /// The collection's name is not a plain identifier.
    InvalidCollectionName,
    /// The property with this index has a name that is not a plain identifier.
    InvalidPropertyName(u16),
    /// This index is used by an earlier property too.
    DuplicatePropertyIndex(u16),
}

/// What a collection schema stands for.
pub struct CollectionView {
    pub name: Seq<char>,
    pub properties: Seq<PropertyView>,
}

impl CollectionView {
    /// Whether some property has index `index`.
    pub open spec fn has_property(self, index: u16) -> bool {
        exists|i: int| 0 <= i < self.properties.len() && self.properties[i].index == index
    }

    /// The name of the property with index `index`, if there is one.
    pub open spec fn property_name(self, index: u16) -> Option<Seq<char>> {
        if self.has_property(index) {
            let i = choose|i: int| 0 <= i < self.properties.len() && self.properties[i].index == index;
            Some(self.properties[i].name)
        } else {
            None
        }
    }

    /// Every name is a plain identifier and no index is used twice.
    pub open spec fn well_formed(self) -> bool {
        &&& is_identifier(self.name)
        &&& forall|i: int|
            0 <= i < self.properties.len() ==> is_identifier(#[trigger] self.properties[i].name)
        &&& forall|i: int, j: int|
            0 <= i < j < self.properties.len() ==> self.properties[i].index
                != self.properties[j].index
    }
}

/// What is wrong with the property at position `i`, judged against the
/// properties before it.
pub open spec fn property_fault(properties: Seq<PropertyView>, i: int) -> Option<SchemaError> {
    if !is_identifier(properties[i].name) {
        Some(SchemaError::InvalidPropertyName(properties[i].index))
    } else if exists|j: int| 0 <= j < i && properties[j].index == properties[i].index {
        Some(SchemaError::DuplicatePropertyIndex(properties[i].index))
    } else {
        None
    }
}

/// The fault of each property, by position.
pub open spec fn property_faults(properties: Seq<PropertyView>) -> Seq<Option<SchemaError>> {
    Seq::new(properties.len(), |i: int| property_fault(properties, i))
}

/// The first thing wrong with a schema: its name, else the first faulty
/// property; `None` for a schema that can be used.
pub open spec fn schema_fault(name: Seq<char>, properties: Seq<PropertyView>) -> Option<
    SchemaError,
> {
    if !is_identifier(name) {
        Some(SchemaError::InvalidCollectionName)
    } else {
        first_some(property_faults(properties))
    }
}

/// A schema has no fault exactly when it is well formed.
pub proof fn lemma_schema_fault_none_iff_well_formed(schema: CollectionView)
    ensures
        schema_fault(schema.name, schema.properties) is None <==> schema.well_formed(),
{
    let faults = property_faults(schema.properties);
    lemma_first_some_none(faults);
    if schema.well_formed() {
        assert forall|i: int| 0 <= i < faults.len() implies faults[i] is None by {
            assert(is_identifier(schema.properties[i].name));
        }
    }
    if schema_fault(schema.name, schema.properties) is None {
        assert forall|i: int| 0 <= i < schema.properties.len() implies is_identifier(
            #[trigger] schema.properties[i].name,
        ) by {
            assert(faults[i] is None);
        }
        assert forall|i: int, j: int| 0 <= i < j < schema.properties.len() implies schema.properties[i].index
            != schema.properties[j].index by {
            assert(faults[j] is None);
        }
    }
}

/// A collection's schema: its name and its properties. Immutable once made;
/// every name in it is a plain identifier and every property index is used
/// once.
#[derive(Debug)]
pub struct SQLiteCollection {
    name: String,
    properties: Vec<Property>,
}

impl View for SQLiteCollection {
    type V = CollectionView;

    closed spec fn view(&self) -> CollectionView {
        CollectionView { name: self.name@, properties: self.properties.deep_view() }
    }
}

impl SQLiteCollection {
    /// What holds of every schema: it is well formed.
    #[verifier::type_invariant]
    pub open spec fn valid(&self) -> bool {
        self@.well_formed()
    }

    /// Makes a schema from a name and properties, or says what is wrong with
    /// them.
    #[verifier::loop_isolation(false)]
    pub fn new(name: String, properties: Vec<Property>) -> (made: Result<Self, SchemaError>)
        ensures
            match schema_fault(name@, properties.deep_view()) {
                Some(fault) => made == Err::<Self, SchemaError>(fault),
                None => made is Ok && made->Ok_0@ == (CollectionView {
                    name: name@,
                    properties: properties.deep_view(),
                }),
            },
    {
        if !is_identifier_str(name.as_str()) {
            return Err(SchemaError::InvalidCollectionName);
        }
        let ghost views = properties.deep_view();
        let ghost faults = property_faults(views);
        let mut i: usize = 0;
        while i < properties.len()
            invariant
                i <= properties.len(),
                forall|k: int| 0 <= k < i ==> faults[k] is None,
            decreases properties.len() - i,
        {
            let index = properties[i].index;
            if !is_identifier_str(properties[i].name.as_str()) {
                proof {
                    lemma_first_some_at(faults, i as int);
                }
                return Err(SchemaError::InvalidPropertyName(index));
            }
            let mut j: usize = 0;
            while j < i
                invariant
                    j <= i,
                    forall|k: int| 0 <= k < j ==> views[k].index != index,
                decreases i - j,
            {
                if properties[j].index == index {
                    proof {
                        assert(views[j as int].index == views[i as int].index);
                        lemma_first_some_at(faults, i as int);
                    }
                    return Err(SchemaError::DuplicatePropertyIndex(index));
                }
                j += 1;
            }
            assert(faults[i as int] is None);
            i += 1;
        }
        proof {
            lemma_first_some_none(faults);
            lemma_schema_fault_none_iff_well_formed(
                CollectionView { name: name@, properties: views },
            );
        }
        Ok(SQLiteCollection { name, properties })
    }

    /// The collection's name.
    pub fn name(&self) -> (name: &str)
        ensures
            name@ == self@.name,
    {
        self.name.as_str()
    }

    /// The name of the property with index `index`, or `None` when the
    /// schema has no such property.
    #[verifier::loop_isolation(false)]
    pub fn get_property_name(&self, index: u16) -> (name: Option<&str>)
        ensures
            name.deep_view() == self@.property_name(index),
    {
        proof {
            use_type_invariant(self);
        }
        let ghost views = self@.properties;
        let mut i: usize = 0;
        while i < self.properties.len()
            invariant
                i <= self.properties.len(),
                forall|k: int| 0 <= k < i ==> views[k].index != index,
            decreases self.properties.len() - i,
        {
            if self.properties[i].index == index {
                proof {
                    assert(views[i as int].index == index);
                    let found = choose|k: int| 0 <= k < views.len() && views[k].index == index;
                    assert(found == i);
                    assert(views[i as int].name == self.properties[i as int].name@);
                }
                return Some(self.properties[i].name.as_str());
            }
            i += 1;
        }
        None
    }
}

} // verus!
