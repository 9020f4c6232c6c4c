//! The parameters of a URL as a table of rows, with the place of the user
//! among them.

use vstd::prelude::*;
use crate::kv_data::KVDataView;

verus! {

/// Greatest number of parameters that the table takes.
pub const PARAM_LIMIT: usize = 1000;

/// One parameter: a name and a value.
#[derive(Debug, PartialEq)]
pub struct Param {
    name: String,
    value: String,
}

impl View for Param {
    type V = KVDataView;

    /// A parameter is a key-value row whose key is its name.
    closed spec fn view(&self) -> KVDataView {
        KVDataView { key: self.name@, value: self.value@ }
    }
}

impl Clone for Param {
    fn clone(&self) -> (r: Self)
        ensures
            r@ == self@,
    {
        Param { name: self.name.clone(), value: self.value.clone() }
    }
}

impl Default for Param {
    fn default() -> (r: Self)
        ensures
            r@ == KVDataView::empty(),
    {
        Param { name: String::new(), value: String::new() }
    }
}

impl Param {
    pub fn name(self) -> (n: String)
        ensures
            n@ == self@.key,
    {
        self.name
    }

    pub fn set_name(&mut self, name: String)
        ensures
            final(self)@ == (KVDataView { key: name@, ..old(self)@ }),
    {
        self.name = name
    }

    pub fn value(self) -> (v: String)
        ensures
            v@ == self@.value,
    {
        self.value
    }

    pub fn set_value(&mut self, value: String)
        ensures
            final(self)@ == (KVDataView { value: value@, ..old(self)@ }),
    {
        self.value = value
    }
}

/// The parameters of `params` as plain values.
pub open spec fn params_view(params: Seq<Param>) -> Seq<KVDataView> {
    params.map_values(|p: Param| p@)
}

pub struct UrlParamsView {
    pub params: Seq<KVDataView>,
    pub active_param_row: int,
    pub active_param_col: int,
}

impl UrlParamsView {
    /// `param` added at the end, unless the table is full.
    pub open spec fn add_param(self, param: KVDataView) -> Self {
        if self.params.len() == PARAM_LIMIT {
            self
        } else {
            UrlParamsView { params: self.params.push(param), ..self }
        }
    }

    /// `param` inserted before index `pos`, unless the table is full or
    /// `pos` is the limit or past the end.
    pub open spec fn insert_param(self, pos: int, param: KVDataView) -> Self {
        if self.params.len() == PARAM_LIMIT || pos == PARAM_LIMIT || pos > self.params.len() {
            self
        } else {
            UrlParamsView { params: self.params.insert(pos, param), ..self }
        }
    }

    /// The parameter at index `pos` removed; where it was the only one, an
    /// empty parameter takes its place. Unchanged where there is none at
    /// `pos`.
    pub open spec fn remove_param(self, pos: int) -> Self {
        if pos >= self.params.len() {
            self
        } else if self.params.len() == 1 {
            UrlParamsView { params: seq![KVDataView::empty()], ..self }
        } else {
            UrlParamsView { params: self.params.remove(pos), ..self }
        }
    }
}

pub struct UrlParams {
    params: Vec<Param>,
    /// Index of the parameter that is highlighted or being edited.
    active_param_row: u16,
    /// The highlighted column: name, value, add button or remove button.
    active_param_col: u8,
}

impl View for UrlParams {
    type V = UrlParamsView;

    closed spec fn view(&self) -> UrlParamsView {
        UrlParamsView {
            params: params_view(self.params@),
            active_param_row: self.active_param_row as int,
            active_param_col: self.active_param_col as int,
        }
    }
}

impl Default for UrlParams {
    fn default() -> (r: Self)
        ensures
            r@ == (UrlParamsView {
                params: seq![KVDataView::empty()],
                active_param_row: 0,
                active_param_col: 0,
            }),
    {
        let mut params: Vec<Param> = Vec::new();
        params.push(Param::default());
        proof {
            assert(params_view(params@) =~= seq![KVDataView::empty()]);
        }
        UrlParams { params, active_param_row: 0, active_param_col: 0 }
    }
}

impl UrlParams {
    pub fn params(&self) -> (params: &Vec<Param>)
        ensures
            params_view(params@) == self@.params,
    {
        &self.params
    }

    pub fn get_param(&self, i: u16) -> (param: &Param)
        requires
            i < self@.params.len(),
        ensures
            param@ == self@.params[i as int],
    {
        &self.params[i as usize]
    }

    pub fn get_param_name(&self, i: u16) -> (name: String)
        requires
            i < self@.params.len(),
        ensures
            name@ == self@.params[i as int].key,
    {
        self.get_param(i).clone().name()
    }

    pub fn get_param_value(&self, i: u16) -> (value: String)
        requires
            i < self@.params.len(),
        ensures
            value@ == self@.params[i as int].value,
    {
        self.get_param(i).clone().value()
    }

    /// Adds `param` at the end. A table of `PARAM_LIMIT` parameters takes no
    /// more.
    pub fn add_param(&mut self, param: Param)
        ensures
            final(self)@ == old(self)@.add_param(param@),
    {
        if self.params.len() == PARAM_LIMIT {
            return ;
        }
        self.params.push(param);
        proof {
            assert(params_view(self.params@) =~= old(self)@.params.push(param@));
        }
    }

    /// Inserts `param` before index `pos`. A table of `PARAM_LIMIT`
    /// parameters takes no more, and nothing is inserted at `PARAM_LIMIT` or
    /// past the end.
    pub fn insert_param(&mut self, pos: u16, param: Param)
        ensures
            final(self)@ == old(self)@.insert_param(pos as int, param@),
    {
        if self.params.len() == PARAM_LIMIT || pos as usize == PARAM_LIMIT || pos as usize
            > self.params.len() {
            return ;
        }
        self.params.insert(pos as usize, param);
        proof {
            assert(params_view(self.params@) =~= old(self)@.params.insert(pos as int, param@));
        }
    }

    /// Removes the parameter at index `pos`; the table never becomes empty.
    pub fn remove_param(&mut self, pos: u16)
        ensures
            final(self)@ == old(self)@.remove_param(pos as int),
            old(self)@.params.len() >= 1 ==> final(self)@.params.len() >= 1,
    {
        if pos as usize >= self.params.len() {
            return ;
        }
        self.params.remove(pos as usize);
        if self.params.len() == 0 {
            self.params.push(Param::default());
            proof {
                assert(params_view(self.params@) =~= seq![KVDataView::empty()]);
            }
        } else {
            proof {
                assert(params_view(self.params@) =~= old(self)@.params.remove(pos as int));
            }
        }
    }

    pub fn active_param_row(&self) -> (row: u16)
        ensures
            row == self@.active_param_row,
    {
        self.active_param_row
    }

    pub fn set_active_param_row(&mut self, row: u16)
        ensures
            final(self)@ == (UrlParamsView { active_param_row: row as int, ..old(self)@ }),
    {
        self.active_param_row = row;
    }

    pub fn active_param_col(&self) -> (col: u8)
        ensures
            col == self@.active_param_col,
    {
        self.active_param_col
    }

    pub fn set_active_param_col(&mut self, col: u8)
        ensures
            final(self)@ == (UrlParamsView { active_param_col: col as int, ..old(self)@ }),
    {
        self.active_param_col = col;
    }

    /// Gives the parameter at index `param_index` the name `name`.
    pub fn param_name_update(&mut self, param_index: u16, name: String)
        requires
            param_index < old(self)@.params.len(),
        ensures
            final(self)@ == (UrlParamsView {
                params: old(self)@.params.update(
                    param_index as int,
                    KVDataView { key: name@, ..old(self)@.params[param_index as int] },
                ),
                ..old(self)@
            }),
    {
        let mut param = self.params[param_index as usize].clone();
        param.set_name(name);
        self.params[param_index as usize] = param;
        proof {
            assert(params_view(self.params@) =~= old(self)@.params.update(
                param_index as int,
                KVDataView { key: name@, ..old(self)@.params[param_index as int] },
            ));
        }
    }

    /// Gives the parameter at index `param_index` the value `value`.
    pub fn param_value_update(&mut self, param_index: u16, value: String)
        requires
            param_index < old(self)@.params.len(),
        ensures
            final(self)@ == (UrlParamsView {
                params: old(self)@.params.update(
                    param_index as int,
                    KVDataView { value: value@, ..old(self)@.params[param_index as int] },
                ),
                ..old(self)@
            }),
    {
        let mut param = self.params[param_index as usize].clone();
        param.set_value(value);
        self.params[param_index as usize] = param;
        proof {
            assert(params_view(self.params@) =~= old(self)@.params.update(
                param_index as int,
                KVDataView { value: value@, ..old(self)@.params[param_index as int] },
            ));
        }
    }
}

} // verus!
