//! The `FT.CREATE` command.

use crate::search::args::write_arg;
use crate::search::args::ToRedisArgs;
use crate::search::create_types::schema_args;
use crate::search::create_types::CreateOptions;
use crate::search::create_types::CreateOptionsView;
use crate::search::create_types::FieldDefinitionView;
use crate::search::create_types::RediSearchSchema;
use crate::text::join;
use crate::text::joined;
use crate::text::texts;
use vstd::prelude::*;
use vstd::string::StrSliceExecFns;
use vstd::string::StringExecFns;

verus! {

/// A command: its name and its arguments, in order.
#[derive(Debug)]
pub struct Cmd {
    args: Vec<String>,
}

impl View for Cmd {
    type V = Seq<Seq<char>>;

    closed spec fn view(&self) -> Seq<Seq<char>> {
        texts(self.args@)
    }
}

impl Cmd {
    /// The name and the arguments of the command.
    pub fn args(&self) -> (args: &Vec<String>)
        ensures
            texts(args@) == self@,
    {
        &self.args
    }

    /// The name and the arguments of the command.
    pub fn into_vec(self) -> (args: Vec<String>)
        ensures
            texts(args@) == self@,
    {
        self.args
    }
}

/// A builder of the `FT.CREATE` command.
#[derive(Debug)]
pub struct FtCreateCommand {
    index: String,
    options: CreateOptions,
    schema: RediSearchSchema,
}

/// The mathematical content of an [`FtCreateCommand`].
pub struct FtCreateCommandView {
    pub index: Seq<char>,
    pub options: CreateOptionsView,
    pub schema: Seq<(Seq<char>, FieldDefinitionView)>,
}

impl FtCreateCommandView {
    /// Whether the command can be built: the index has a name and the schema
    /// has a field.
    pub open spec fn is_complete(self) -> bool {
        self.index.len() > 0 && self.schema.len() > 0
    }

    /// The command: its name, the index, the options, and the schema behind
    /// its keyword.
    pub open spec fn args(self) -> Seq<Seq<char>> {
        seq!["FT.CREATE"@, self.index] + self.options.args() + seq!["SCHEMA"@] + schema_args(
            self.schema,
        )
    }
}

impl View for FtCreateCommand {
    type V = FtCreateCommandView;

    closed spec fn view(&self) -> FtCreateCommandView {
        FtCreateCommandView { index: self.index@, options: self.options@, schema: self.schema@ }
    }
}

impl FtCreateCommand {
    /// A command for the index `index`, without options and with an empty
    /// schema.
    pub fn new(index: &str) -> (command: Self)
        ensures
            command@ == (FtCreateCommandView {
                index: index@,
                options: CreateOptionsView::empty(),
                schema: Seq::empty(),
            }),
    {
        FtCreateCommand {
            index: String::from_str(index),
            options: CreateOptions::new(),
            schema: RediSearchSchema::new(),
        }
    }

    /// Sets the options of the command.
    pub fn options(self, options: CreateOptions) -> (command: Self)
        ensures
            command@ == (FtCreateCommandView { options: options@, ..self@ }),
    {
        FtCreateCommand { index: self.index, options, schema: self.schema }
    }

    /// Sets the schema of the command.
    pub fn schema(self, schema: RediSearchSchema) -> (command: Self)
        ensures
            command@ == (FtCreateCommandView { schema: schema@, ..self@ }),
    {
        FtCreateCommand { index: self.index, options: self.options, schema }
    }

    /// Whether the command can be built: the index has a name and the schema
    /// has a field.
    pub fn is_complete(&self) -> (complete: bool)
        ensures
            complete == self@.is_complete(),
    {
        self.index.as_str().unicode_len() > 0 && !self.schema.is_empty()
    }

    /// Builds the command. The index must have a name and the schema a
    /// field.
    pub fn into_cmd(self) -> (cmd: Cmd)
        requires
            self@.is_complete(),
        ensures
            cmd@ == self@.args(),
    {
        let mut args: Vec<String> = Vec::new();
        write_arg(&mut args, "FT.CREATE");
        write_arg(&mut args, self.index.as_str());
        self.options.write_redis_args(&mut args);
        write_arg(&mut args, "SCHEMA");
        self.schema.write_redis_args(&mut args);
        Cmd { args }
    }

    /// Builds the command and renders it as one line, with a space between
    /// each two arguments. The index must have a name and the schema a
    /// field.
    pub fn into_args(self) -> (line: String)
        requires
            self@.is_complete(),
        ensures
            line@ == joined(self@.args(), " "@),
    {
        let cmd = self.into_cmd();
        join(&cmd.args, " ")
    }
}

} // verus!
