//! What the command line asks for, and the items that follow from it.

use vstd::prelude::*;
use crate::cenum::output::FormatOutput;

verus! {

/// The switches of the command line, as they were given.
#[derive(Debug, Default, Clone)]
pub struct Switches {
    pub c_enum: bool,
    pub all: bool,
    pub default: bool,
    pub display: bool,
    pub fromprimative: bool,
    pub fromstr: bool,
    pub hex: bool,
    pub pretty_fmt: bool,
}

/// What to read, what to write and how.
#[derive(Debug, Default)]
pub struct Args {
    /// The file to read; standard input if none.
    pub input: Option<String>,
    /// The file to write; standard output if none.
    pub output: Option<String>,
    /// The name of the table.
    pub name: String,
    /// Read `enum` lines instead of `#define` lines.
    pub c_enum: bool,
    pub default: bool,
    pub display: bool,
    pub fromstr: bool,
    pub fromprimative: bool,
    /// Write the numbers in hexadecimal.
    pub hex: bool,
    pub pretty_fmt: bool,
}

/// The switches that select an item, with what each implies.
pub ghost struct Selection {
    pub default: bool,
    pub display: bool,
    pub fromstr: bool,
    pub fromprimative: bool,
    pub pretty_fmt: bool,
}

impl Switches {
    /// What the switches select: `pretty_fmt` brings `fromprimative` and
    /// `display` with it, and `all` selects every item.
    pub open spec fn selection(self) -> Selection {
        Selection {
            default: self.default || self.all,
            display: self.display || self.pretty_fmt || self.all,
            fromstr: self.fromstr || self.all,
            fromprimative: self.fromprimative || self.pretty_fmt || self.all,
            pretty_fmt: self.pretty_fmt || self.all,
        }
    }
}

impl Args {
    /// What these arguments select.
    pub open spec fn selection(self) -> Selection {
        Selection {
            default: self.default,
            display: self.display,
            fromstr: self.fromstr,
            fromprimative: self.fromprimative,
            pretty_fmt: self.pretty_fmt,
        }
    }

    /// Puts the arguments together from the options of the command line.
    /// A table without a name is called `Name`.
    pub fn new(
        input: Option<String>,
        output: Option<String>,
        name: Option<String>,
        switches: Switches,
    ) -> (a: Args)
        ensures
            a.input == input,
            a.output == output,
            a.name@ == match name {
                Some(n) => n@,
                None => "Name"@,
            },
            a.c_enum == switches.c_enum,
            a.hex == switches.hex,
            a.selection() == switches.selection(),
    {
        let mut a = Args {
            input,
            output,
            name: match name {
                Some(n) => n,
                None => "Name".to_owned(),
            },
            c_enum: switches.c_enum,
            default: switches.default,
            display: switches.display,
            fromstr: false,
            fromprimative: switches.fromprimative,
            hex: false,
            pretty_fmt: switches.pretty_fmt,
        };
        if a.pretty_fmt {
            a.fromprimative = true;
            a.display = true;
        }
        a.fromstr = switches.fromstr;
        a.hex = switches.hex;
        if switches.all {
            a.default = true;
            a.display = true;
            a.fromprimative = true;
            a.fromstr = true;
            a.pretty_fmt = true;
        }
        a
    }

    /// The items to write, in the order in which they are written: always
    /// the `enum`, then each selected impl.
    pub open spec fn spec_outputs(self) -> Seq<FormatOutput> {
        seq![FormatOutput::Enum] + (if self.fromstr {
            seq![FormatOutput::FromStr]
        } else {
            seq![]
        }) + (if self.default {
            seq![FormatOutput::Default]
        } else {
            seq![]
        }) + (if self.display {
            seq![FormatOutput::Display]
        } else {
            seq![]
        }) + (if self.fromprimative {
            seq![FormatOutput::FromPrimitive]
        } else {
            seq![]
        }) + (if self.pretty_fmt {
            seq![FormatOutput::PrettyFmt]
        } else {
            seq![]
        })
    }

    /// The items to write, in the order in which they are written.
    pub fn outputs(&self) -> (fov: Vec<FormatOutput>)
        ensures
            fov@ == self.spec_outputs(),
    {
        let mut fov: Vec<FormatOutput> = Vec::new();
        fov.push(FormatOutput::Enum);
        assert(fov@ =~= seq![FormatOutput::Enum]);
        let ghost head = fov@;
        if self.fromstr {
            fov.push(FormatOutput::FromStr);
        }
        assert(fov@ =~= head + (if self.fromstr {
            seq![FormatOutput::FromStr]
        } else {
            seq![]
        }));
        let ghost head = fov@;
        if self.default {
            fov.push(FormatOutput::Default);
        }
        assert(fov@ =~= head + (if self.default {
            seq![FormatOutput::Default]
        } else {
            seq![]
        }));
        let ghost head = fov@;
        if self.display {
            fov.push(FormatOutput::Display);
        }
        assert(fov@ =~= head + (if self.display {
            seq![FormatOutput::Display]
        } else {
            seq![]
        }));
        let ghost head = fov@;
        if self.fromprimative {
            fov.push(FormatOutput::FromPrimitive);
        }
        assert(fov@ =~= head + (if self.fromprimative {
            seq![FormatOutput::FromPrimitive]
        } else {
            seq![]
        }));
        let ghost head = fov@;
        if self.pretty_fmt {
            fov.push(FormatOutput::PrettyFmt);
        }
        assert(fov@ =~= head + (if self.pretty_fmt {
            seq![FormatOutput::PrettyFmt]
        } else {
            seq![]
        }));
        fov
    }
}

} // verus!
