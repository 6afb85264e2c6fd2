//! Functions of the language as a call names them, and the arguments of a
//! call.

use crate::parser::ast::Expr;
use crate::parser::value::ValueType;
use vstd::prelude::*;

verus! {

/// The signature of a function.
///
/// `arg_types` declares one slot per argument. Where `variadic` is set the
/// last slot may be left out or repeated.
#[derive(Debug, PartialEq, Eq)]
pub struct Function {
    pub name: &'static str,
    pub arg_types: Vec<ValueType>,
    pub variadic: bool,
    pub return_type: ValueType,
}

impl Clone for Function {
    /// The same signature under the same name.
    fn clone(&self) -> (r: Function)
        ensures
            self.is_copy(&r),
    {
        let mut arg_types: Vec<ValueType> = Vec::new();
        let mut i: usize = 0;
        while i < self.arg_types.len()
            invariant
                i <= self.arg_types.len(),
                arg_types@ == self.arg_types@.take(i as int),
            decreases self.arg_types.len() - i,
        {
            arg_types.push(self.arg_types[i]);
            assert(arg_types@ =~= self.arg_types@.take(i + 1));
            i += 1;
        }
        assert(self.arg_types@.take(i as int) =~= self.arg_types@);
        Function {
            name: self.name,
            arg_types,
            variadic: self.variadic,
            return_type: self.return_type,
        }
    }
}

impl Function {
    /// `other` has the same name, the same slots in the same order, and
    /// returns the same type: it is a copy of this signature.
    pub open spec fn is_copy(&self, other: &Function) -> bool {
        &&& other.name == self.name
        &&& other.arg_types@ == self.arg_types@
        &&& other.variadic == self.variadic
        &&& other.return_type == self.return_type
    }

    /// The function of the given name and signature.
    pub fn new(
        name: &'static str,
        arg_types: Vec<ValueType>,
        variadic: bool,
        return_type: ValueType,
    ) -> (r: Function)
        ensures
            r == (Function { name, arg_types, variadic, return_type }),
    {
        Function { name, arg_types, variadic, return_type }
    }
}

/// The arguments of a call or of an aggregation, in the order written.
#[derive(Debug, Clone, PartialEq, Eq)]
pub struct FunctionArgs {
    pub args: Vec<Box<Expr>>,
}

impl FunctionArgs {
    /// No arguments.
    pub fn empty_args() -> (r: FunctionArgs)
        ensures
            r.args@ == Seq::<Box<Expr>>::empty(),
    {
        FunctionArgs { args: Vec::new() }
    }

    /// The one argument `expr`.
    pub fn new_args(expr: Expr) -> (r: FunctionArgs)
        ensures
            r.args@ == seq![Box::new(expr)],
    {
        let mut args: Vec<Box<Expr>> = Vec::new();
        args.push(Box::new(expr));
        FunctionArgs { args }
    }

    /// These arguments followed by `expr`.
    pub fn append_args(self, expr: Expr) -> (r: FunctionArgs)
        ensures
            r.args@ == self.args@.push(Box::new(expr)),
    {
        let mut args = self.args;
        args.push(Box::new(expr));
        FunctionArgs { args }
    }

    /// Whether there is no argument.
    pub fn is_empty(&self) -> (r: bool)
        ensures
            r == (self.args@.len() == 0),
    {
        self.args.len() == 0
    }

    /// The number of arguments.
    pub fn len(&self) -> (r: usize)
        ensures
            r == self.args@.len(),
    {
        self.args.len()
    }

    /// The first argument, if there is one.
    pub fn first(&self) -> (r: Option<&Expr>)
        ensures
            r == if self.args@.len() == 0 {
                None
            } else {
                Some(&*self.args@[0])
            },
    {
        if self.args.len() == 0 {
            None
        } else {
            Some(&*self.args[0])
        }
    }

    /// The last argument, if there is one.
    pub fn last(&self) -> (r: Option<&Expr>)
        ensures
            r == if self.args@.len() == 0 {
                None
            } else {
                Some(&*self.args@.last())
            },
    {
        if self.args.len() == 0 {
            None
        } else {
            Some(&*self.args[self.args.len() - 1])
        }
    }
}

} // verus!
