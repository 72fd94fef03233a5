//! The part of a processed document that the evaluator reads: the reducer keys with
//! their default expressions and actions.

use crate::assoc::{
    distinct_keys, lemma_index_of, lemma_map_vals_distinct, lemma_map_vals_index_of,
    lemma_map_vals_put_last, map_vals, put_last, value_of,
};
use crate::ast::{opt_expr_model, ExprModel, ExprValue, VarType};
use crate::context::lemma_put_last_keyed;
use crate::store::LinkedStore;
use crate::text::{upper, uppercase_text};
use vstd::prelude::*;

verus! {

/// The expression that computes the next state of a reducer for one action.
#[derive(Debug)]
pub enum ActionStateExprType {
    SimpleReducerKeyExpr(ExprValue),
}

/// One action of a reducer.
#[derive(Debug)]
pub struct ReducerActionData {
    pub action_type: String,
    pub state_expr: Option<ActionStateExprType>,
}

/// One reducer key: its default expression, its actions and its declared type.
#[derive(Debug)]
pub struct ReducerKeyData {
    pub reducer_key: String,
    pub default_expr: Option<ExprValue>,
    pub actions: Option<Vec<ReducerActionData>>,
    pub ty: Option<VarType>,
}

/// The reducer keys of a document by name, in the order of their definition.
#[derive(Debug)]
pub struct Document {
    reducer_key_data: LinkedStore<ReducerKeyData>,
}

/// The model of a document: each reducer key under its name.
pub type DocumentView = Seq<(Seq<char>, ReducerKeyView)>;

pub struct ReducerActionView {
    pub action_type: Seq<char>,
    pub state_expr: Option<ExprModel>,
}

pub struct ReducerKeyView {
    pub reducer_key: Seq<char>,
    pub default_expr: Option<ExprModel>,
    pub actions: Option<Seq<ReducerActionView>>,
    pub ty: Option<VarType>,
}

impl View for ReducerActionData {
    type V = ReducerActionView;

    open spec fn view(&self) -> ReducerActionView {
        ReducerActionView {
            action_type: self.action_type@,
            state_expr: match self.state_expr {
                Some(ActionStateExprType::SimpleReducerKeyExpr(e)) => Some(e@),
                None => None,
            },
        }
    }
}

impl View for ReducerKeyData {
    type V = ReducerKeyView;

    open spec fn view(&self) -> ReducerKeyView {
        ReducerKeyView {
            reducer_key: self.reducer_key@,
            default_expr: opt_expr_model(self.default_expr),
            actions: match self.actions {
                Some(v) => Some(Seq::new(v@.len(), |i: int| v@[i]@)),
                None => None,
            },
            ty: self.ty,
        }
    }
}

impl View for Document {
    type V = DocumentView;

    closed spec fn view(&self) -> DocumentView {
        map_vals(self.reducer_key_data.entries(), |d: ReducerKeyData| d@)
    }
}

/// The default expression that a document registers for the reducer key `key`.
pub open spec fn default_of(doc: DocumentView, key: Seq<char>) -> Option<ExprModel> {
    match value_of(doc, key) {
        Some(d) => d.default_expr,
        None => None,
    }
}

/// No two reducer keys of a document share a name, and each stands under its own name.
pub open spec fn valid_document(doc: DocumentView) -> bool {
    &&& distinct_keys(doc)
    &&& forall|i: int| 0 <= i < doc.len() ==> (#[trigger] doc[i]).0 == doc[i].1.reducer_key
}

impl ReducerActionData {
    /// An action without a state expression. Its type is the name in upper case.
    pub fn from_name(action_name: &str) -> (r: ReducerActionData)
        ensures
            r@ == (ReducerActionView {
                action_type: uppercase_text(action_name@),
                state_expr: None,
            }),
    {
        ReducerActionData { action_type: upper(action_name), state_expr: None }
    }
}

impl ReducerKeyData {
    /// A reducer key without a default expression, without actions so far and without
    /// a declared type.
    pub fn from_name(reducer_key: &str) -> (r: ReducerKeyData)
        ensures
            r@ == (ReducerKeyView {
                reducer_key: reducer_key@,
                default_expr: None,
                actions: Some(Seq::empty()),
                ty: None,
            }),
    {
        let r = ReducerKeyData {
            reducer_key: reducer_key.to_owned(),
            default_expr: None,
            actions: Some(Vec::new()),
            ty: None,
        };
        assert(r@.actions->0 =~= Seq::empty());
        r
    }
}

impl Document {
    /// The collection of reducer keys is well-formed and the model is valid.
    pub closed spec fn wf(&self) -> bool {
        self.reducer_key_data.wf() && valid_document(self@)
    }

    /// The model of a well-formed document is valid.
    pub proof fn lemma_valid(&self)
        requires
            self.wf(),
        ensures
            valid_document(self@),
    {
    }

    /// A document without reducer keys.
    pub fn new() -> (r: Document)
        ensures
            r.wf(),
            r@ == Seq::<(Seq<char>, ReducerKeyView)>::empty(),
    {
        let r = Document { reducer_key_data: LinkedStore::new() };
        assert(r@ =~= Seq::<(Seq<char>, ReducerKeyView)>::empty());
        r
    }

    /// Registers a reducer key under its name, after those that the document has. A
    /// reducer key that was registered under the same name is replaced.
    pub fn add_reducer_key(&mut self, data: ReducerKeyData)
        requires
            old(self).wf(),
        ensures
            final(self).wf(),
            final(self)@ == put_last(old(self)@, data@.reducer_key, data@),
    {
        let ghost f = |d: ReducerKeyData| d@;
        let ghost before = self.reducer_key_data.entries();
        let key = data.reducer_key.clone();
        self.reducer_key_data.insert(key, data);
        proof {
            lemma_map_vals_put_last(before, f, data@.reducer_key, data);
            self.reducer_key_data.lemma_distinct();
            lemma_map_vals_distinct(self.reducer_key_data.entries(), f);
            lemma_put_last_keyed(
                old(self)@,
                data@.reducer_key,
                data@,
                |d: ReducerKeyView| d.reducer_key,
            );
        }
    }

    /// The number of reducer keys.
    pub fn len(&self) -> (n: usize)
        ensures
            n == self@.len(),
    {
        self.reducer_key_data.len()
    }

    /// The reducer keys in the order of their definition.
    pub fn reducer_keys(&self) -> (r: Vec<&ReducerKeyData>)
        requires
            self.wf(),
        ensures
            r@.len() == self@.len(),
            forall|i: int| 0 <= i < r@.len() ==> r@[i]@ == (#[trigger] self@[i]).1,
    {
        self.reducer_key_data.items()
    }

    /// The reducer key that is registered under the name `key`.
    pub fn reducer_key(&self, key: &str) -> (r: Option<&ReducerKeyData>)
        requires
            self.wf(),
        ensures
            match r {
                Some(d) => value_of(self@, key@) == Some(d@),
                None => value_of(self@, key@) is None,
            },
    {
        proof {
            lemma_map_vals_index_of(self.reducer_key_data.entries(), |d: ReducerKeyData| d@, key@);
            lemma_index_of(self.reducer_key_data.entries(), key@);
        }
        self.reducer_key_data.get(key)
    }

    /// The default expression that the document registers for the reducer key `key`.
    pub fn default_expr(&self, key: &str) -> (r: Option<&ExprValue>)
        requires
            self.wf(),
        ensures
            match r {
                Some(e) => default_of(self@, key@) == Some(e@),
                None => default_of(self@, key@) is None,
            },
    {
        match self.reducer_key(key) {
            Some(d) => match &d.default_expr {
                Some(e) => Some(e),
                None => None,
            },
            None => None,
        }
    }
}

} // verus!
