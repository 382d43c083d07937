use vstd::prelude::*;

verus! {

/// The two positional arguments of the recorder process: the capture device
/// identifier and the segment-file location template, passed through to the
/// sink unmodified.
#[derive(Debug)]
pub struct CliConfig {
    pub device: String,
    pub location: String,
}

/// The process was invoked with the wrong number of arguments.
#[derive(Debug)]
pub struct UsageError {
    pub program: String,
}

impl UsageError {
    /// The usage line printed to the error stream.
    pub fn usage_line(&self) -> (r: String)
        ensures
            r@ == "Usage: "@ + self.program@ + " <device> <location>"@,
    {
        let mut s = "Usage: ".to_owned();
        s.append(self.program.as_str());
        s.append(" <device> <location>");
        s
    }
}

/// Parses the argument vector, program name first.  Exactly two positional
/// arguments are accepted; any other arity is a usage error, raised before
/// any stage is constructed.
pub fn parse_args(args: &Vec<String>) -> (r: Result<CliConfig, UsageError>)
    ensures
        r is Ok <==> args@.len() == 3,
        r matches Ok(c) ==> c.device@ == args@[1]@ && c.location@ == args@[2]@,
        r matches Err(u) ==> u.program@ == if args@.len() > 0 {
            args@[0]@
        } else {
            Seq::<char>::empty()
        },
{
    if args.len() != 3 {
        let program = if args.len() > 0 {
            args[0].clone()
        } else {
            String::new()
        };
        return Err(UsageError { program });
    }
    Ok(CliConfig { device: args[1].clone(), location: args[2].clone() })
}

} // verus!
