use vstd::prelude::*;

use crate::ast::{ExprV, Expression};

verus! {

/// A parsed statement.
#[derive(Debug, PartialEq, Clone)]
pub enum Statement {
    Select {
        columns: Vec<Expression>,
        from: String,
        where_clause: Option<Expression>,
        orderby: Vec<Expression>,
    },
    CreateTable { table_name: String, column_list: Vec<TableColumn> },
}

/// One column of a `CREATE TABLE` statement.
#[derive(Debug, PartialEq, Clone)]
pub struct TableColumn {
    pub column_name: String,
    pub column_type: DBType,
    pub constraints: Vec<Constraint>,
}

#[derive(Debug, PartialEq, Eq, Structural, Clone, Copy)]
pub enum DBType {
    Int,
    Varchar(usize),
    Bool,
}

#[derive(Debug, PartialEq, Clone)]
pub enum Constraint {
    NotNull,
    PrimaryKey,
    Check(Expression),
}

/// The mathematical form of a constraint.
pub enum ConstraintV {
    NotNull,
    PrimaryKey,
    Check(ExprV),
}

/// The mathematical form of a column definition.
pub struct ColumnV {
    pub column_name: Seq<char>,
    pub column_type: DBType,
    pub constraints: Seq<ConstraintV>,
}

/// The mathematical form of a statement.
pub enum StatementV {
    Select {
        columns: Seq<ExprV>,
        from: Seq<char>,
        where_clause: Option<ExprV>,
        orderby: Seq<ExprV>,
    },
    CreateTable { table_name: Seq<char>, column_list: Seq<ColumnV> },
}

pub open spec fn exprs_view(es: Seq<Expression>) -> Seq<ExprV> {
    es.map_values(|e: Expression| e@)
}

pub open spec fn option_expr_view(e: Option<Expression>) -> Option<ExprV> {
    match e {
        Some(x) => Some(x@),
        None => None,
    }
}

pub open spec fn constraints_view(cs: Seq<Constraint>) -> Seq<ConstraintV> {
    cs.map_values(|c: Constraint| c@)
}

pub open spec fn columns_view(cs: Seq<TableColumn>) -> Seq<ColumnV> {
    cs.map_values(|c: TableColumn| c@)
}

impl View for Constraint {
    type V = ConstraintV;

    open spec fn view(&self) -> ConstraintV {
        match self {
            Constraint::NotNull => ConstraintV::NotNull,
            Constraint::PrimaryKey => ConstraintV::PrimaryKey,
            Constraint::Check(e) => ConstraintV::Check(e@),
        }
    }
}

impl View for TableColumn {
    type V = ColumnV;

    open spec fn view(&self) -> ColumnV {
        ColumnV {
            column_name: self.column_name@,
            column_type: self.column_type,
            constraints: constraints_view(self.constraints@),
        }
    }
}

impl View for Statement {
    type V = StatementV;

    open spec fn view(&self) -> StatementV {
        match self {
            Statement::Select { columns, from, where_clause, orderby } => StatementV::Select {
                columns: exprs_view(columns@),
                from: from@,
                where_clause: option_expr_view(*where_clause),
                orderby: exprs_view(orderby@),
            },
            Statement::CreateTable { table_name, column_list } => StatementV::CreateTable {
                table_name: table_name@,
                column_list: columns_view(column_list@),
            },
        }
    }
}

} // verus!
