//! An in-memory model of the external hierarchical data source: named
//! variables holding arrays of micro-unit values, and named string
//! attributes. The caller reads the real file into this form; every
//! judgment about its contents is made here.

use vstd::prelude::*;

verus! {

/// The readable content of one variable: its values in micro-units, or a
/// marker that the values could not be read as numbers.
pub enum VarData {
    Floats(Vec<i64>),
    Unreadable,
}

pub enum VarDataV {
    Floats(Seq<i64>),
    Unreadable,
}

impl View for VarData {
    type V = VarDataV;

    open spec fn view(&self) -> VarDataV {
        match self {
            VarData::Floats(v) => VarDataV::Floats(v@),
            VarData::Unreadable => VarDataV::Unreadable,
        }
    }
}

pub struct SourceVar {
    pub name: String,
    pub data: VarData,
}

/// The readable content of one attribute: its text, or a marker that it is
/// not string-typed, or that its value could not be read at all.
pub enum AttrData {
    Str(String),
    NonString,
    Unreadable,
}

pub enum AttrDataV {
    Str(Seq<char>),
    NonString,
    Unreadable,
}

impl View for AttrData {
    type V = AttrDataV;

    open spec fn view(&self) -> AttrDataV {
        match self {
            AttrData::Str(s) => AttrDataV::Str(s@),
            AttrData::NonString => AttrDataV::NonString,
            AttrData::Unreadable => AttrDataV::Unreadable,
        }
    }
}

pub struct SourceAttr {
    pub name: String,
    pub value: AttrData,
}

/// One opened data source, read-only for the run.
pub struct SourceData {
    pub vars: Vec<SourceVar>,
    pub attrs: Vec<SourceAttr>,
}

/// The content of the first variable of the given name, if any.
pub open spec fn var_lookup(vars: Seq<SourceVar>, name: Seq<char>) -> Option<VarDataV>
    decreases vars.len(),
{
    if vars.len() == 0 {
        None
    } else if vars[0].name@ == name {
        Some(vars[0].data@)
    } else {
        var_lookup(vars.drop_first(), name)
    }
}

/// The content of the first attribute of the given name, if any.
pub open spec fn attr_lookup(attrs: Seq<SourceAttr>, name: Seq<char>) -> Option<AttrDataV>
    decreases attrs.len(),
{
    if attrs.len() == 0 {
        None
    } else if attrs[0].name@ == name {
        Some(attrs[0].value@)
    } else {
        attr_lookup(attrs.drop_first(), name)
    }
}

impl SourceData {
    pub open spec fn var(&self, name: Seq<char>) -> Option<VarDataV> {
        var_lookup(self.vars@, name)
    }

    pub open spec fn has_var(&self, name: Seq<char>) -> bool {
        var_lookup(self.vars@, name) is Some
    }

    pub open spec fn attr(&self, name: Seq<char>) -> Option<AttrDataV> {
        attr_lookup(self.attrs@, name)
    }
}

/// Finds the first variable of the given name.
pub fn find_var<'a>(data: &'a SourceData, name: &String) -> (r: Option<&'a VarData>)
    ensures
        match r {
            Some(d) => data.var(name@) == Some(d@),
            None => data.var(name@) is None,
        },
{
    let mut i: usize = 0;
    proof {
        assert(data.vars@.skip(0) =~= data.vars@);
    }
    while i < data.vars.len()
        invariant
            0 <= i <= data.vars@.len(),
            var_lookup(data.vars@, name@) == var_lookup(data.vars@.skip(i as int), name@),
        decreases data.vars@.len() - i,
    {
        proof {
            assert(data.vars@.skip(i as int)[0] == data.vars@[i as int]);
            assert(data.vars@.skip(i as int).drop_first() =~= data.vars@.skip(i as int + 1));
        }
        if data.vars[i].name == *name {
            return Some(&data.vars[i].data);
        }
        i = i + 1;
    }
    None
}

/// Whether a variable of the given name exists.
pub fn has_var(data: &SourceData, name: &String) -> (r: bool)
    ensures
        r == data.has_var(name@),
{
    match find_var(data, name) {
        Some(_) => true,
        None => false,
    }
}

/// Whether a variable of the given name exists, for a borrowed name.
pub fn has_var_str(data: &SourceData, name: &str) -> (r: bool)
    ensures
        r == data.has_var(name@),
{
    let mut i: usize = 0;
    proof {
        assert(data.vars@.skip(0) =~= data.vars@);
    }
    while i < data.vars.len()
        invariant
            0 <= i <= data.vars@.len(),
            var_lookup(data.vars@, name@) == var_lookup(data.vars@.skip(i as int), name@),
        decreases data.vars@.len() - i,
    {
        proof {
            assert(data.vars@.skip(i as int)[0] == data.vars@[i as int]);
            assert(data.vars@.skip(i as int).drop_first() =~= data.vars@.skip(i as int + 1));
        }
        if crate::checks::str_eq(data.vars[i].name.as_str(), name) {
            return true;
        }
        i = i + 1;
    }
    false
}

/// Finds the first attribute of the given name.
pub fn find_attr<'a>(data: &'a SourceData, name: &String) -> (r: Option<&'a AttrData>)
    ensures
        match r {
            Some(d) => data.attr(name@) == Some(d@),
            None => data.attr(name@) is None,
        },
{
    let mut i: usize = 0;
    proof {
        assert(data.attrs@.skip(0) =~= data.attrs@);
    }
    while i < data.attrs.len()
        invariant
            0 <= i <= data.attrs@.len(),
            attr_lookup(data.attrs@, name@) == attr_lookup(data.attrs@.skip(i as int), name@),
        decreases data.attrs@.len() - i,
    {
        proof {
            assert(data.attrs@.skip(i as int)[0] == data.attrs@[i as int]);
            assert(data.attrs@.skip(i as int).drop_first() =~= data.attrs@.skip(i as int + 1));
        }
        if data.attrs[i].name == *name {
            return Some(&data.attrs[i].value);
        }
        i = i + 1;
    }
    None
}

} // verus!
