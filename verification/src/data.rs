//! Builders of the variables and lists of a target.

use crate::document::defaults_view;
use crate::uid::Uid;
use crate::uid::uid_text;
use crate::uid::UidSource;
use crate::value::ValueWithBool;
use crate::value::ValueWithBoolView;
use vstd::prelude::*;

verus! {

/// A variable of the document.
#[derive(Debug, Clone, PartialEq)]
pub struct Variable {
    pub name: String,
    pub value: ValueWithBool,
    pub is_cloud_variable: bool,
}

/// The model of a [`Variable`].
pub struct VariableView {
    pub name: Seq<char>,
    pub value: ValueWithBoolView,
    pub is_cloud_variable: bool,
}

impl View for Variable {
    type V = VariableView;

    open spec fn view(&self) -> VariableView {
        VariableView {
            name: self.name@,
            value: self.value@,
            is_cloud_variable: self.is_cloud_variable,
        }
    }
}

/// A list of the document.
#[derive(Debug, Clone, PartialEq)]
pub struct List {
    pub name: String,
    pub values: Vec<ValueWithBool>,
}

/// The model of a [`List`].
pub struct ListView {
    pub name: Seq<char>,
    pub values: Seq<ValueWithBoolView>,
}

impl View for List {
    type V = ListView;

    open spec fn view(&self) -> ListView {
        ListView { name: self.name@, values: defaults_view(self.values@) }
    }
}

/// Describes a variable by its first value.
#[derive(Debug, Clone, PartialEq)]
pub struct VariableBuilder {
    pub value: ValueWithBool,
    /// A cloud variable is kept on a server and can only hold a number.
    pub is_cloud_variable: bool,
}

impl VariableBuilder {
    /// A variable that is kept in the project.
    pub fn new(starting_value: ValueWithBool) -> (builder: VariableBuilder)
        ensures
            builder.value == starting_value,
            !builder.is_cloud_variable,
    {
        VariableBuilder { value: starting_value, is_cloud_variable: false }
    }

    /// A variable that is kept on a server.  Its value is a number.
    pub fn new_cloud_variable(starting_value: ValueWithBool) -> (builder: VariableBuilder)
        requires
            starting_value is Number,
        ensures
            builder.value == starting_value,
            builder.is_cloud_variable,
    {
        VariableBuilder { value: starting_value, is_cloud_variable: true }
    }

    pub fn set_value(&mut self, value: ValueWithBool) -> (builder: &mut Self)
        ensures
            *builder == (VariableBuilder { value, ..*old(self) }),
            *final(self) == *final(builder),
    {
        self.value = value;
        self
    }

    pub fn set_cloud_variable(&mut self, is_cloud_variable: bool) -> (builder: &mut Self)
        ensures
            *builder == (VariableBuilder { is_cloud_variable, ..*old(self) }),
            *final(self) == *final(builder),
    {
        self.is_cloud_variable = is_cloud_variable;
        self
    }

    /// The variable under the given name, and a fresh identifier for it.
    pub fn build(self, name_for_this_var: String, ids: &mut UidSource) -> (built: (Variable, Uid))
        ensures
            built.0@ == (VariableView {
                name: name_for_this_var@,
                value: self.value@,
                is_cloud_variable: self.is_cloud_variable,
            }),
            built.1@ == uid_text(old(ids)@),
            final(ids)@ == old(ids)@ + 1,
    {
        let my_uid = ids.generate();
        (
            Variable {
                name: name_for_this_var,
                value: self.value,
                is_cloud_variable: self.is_cloud_variable,
            },
            my_uid,
        )
    }
}

/// Describes a list by its first values.
#[derive(Debug, Clone, PartialEq)]
pub struct ListBuilder {
    pub values: Vec<ValueWithBool>,
}

impl ListBuilder {
    pub fn new(values: Vec<ValueWithBool>) -> (builder: ListBuilder)
        ensures
            builder.values == values,
    {
        ListBuilder { values }
    }

    /// The list under the given name, and a fresh identifier for it.
    pub fn build(self, name_for_this_list: String, ids: &mut UidSource) -> (built: (List, Uid))
        ensures
            built.0@ == (ListView {
                name: name_for_this_list@,
                values: defaults_view(self.values@),
            }),
            built.1@ == uid_text(old(ids)@),
            final(ids)@ == old(ids)@ + 1,
    {
        let my_uid = ids.generate();
        (List { name: name_for_this_list, values: self.values }, my_uid)
    }
}

} // verus!
