use vstd::prelude::*;

verus! {

/// The file that holds the search path of the service manager's generators.
pub const GENERATORS_PATH_FILE: &'static str = "/etc/systemd-generators-path";

/// The kernel log device, which generators write their diagnostics to.
pub const KMSG_PATH: &'static str = "/dev/kmsg";

/// The kernel log line written when the generators' path file cannot be read.
pub const READ_FAILURE_MESSAGE: &'static str =
    "<3>env-generator: Failed to read /etc/systemd-generators-path";

/// What the generator emits.
#[derive(Clone, Debug, PartialEq, Eq)]
pub enum GeneratorOutput {
    /// A line for standard output.
    Stdout(String),
    /// A message for the kernel log, where that exists.
    Kmsg(String),
}

/// `s` without the line feeds at its end.
pub open spec fn trim_line_feeds(s: Seq<char>) -> Seq<char>
    decreases s.len(),
{
    if s.len() > 0 && s.last() == '\n' {
        trim_line_feeds(s.drop_last())
    } else {
        s
    }
}

/// The generator's work: given the contents of the path file, or `None` when
/// it could not be read, the `PATH=` assignment that makes the search path
/// available to the other generators (line feeds at the end of the file
/// dropped), or the failure message for the kernel log.
pub fn env_generator(path_file: Option<&str>) -> (r: GeneratorOutput)
    ensures
        match path_file {
            Some(content) => r matches GeneratorOutput::Stdout(line) && line@ == "PATH="@
                + trim_line_feeds(content@),
            None => r matches GeneratorOutput::Kmsg(m) && m@ == READ_FAILURE_MESSAGE@,
        },
{
    match path_file {
        None => GeneratorOutput::Kmsg(READ_FAILURE_MESSAGE.to_string()),
        Some(content) => {
            let mut end = content.unicode_len();
            assert(content@.subrange(0, content@.len() as int) =~= content@);
            while end > 0 && content.get_char(end - 1) == '\n'
                invariant
                    end <= content@.len(),
                    trim_line_feeds(content@) == trim_line_feeds(content@.subrange(0, end as int)),
                decreases end,
            {
                assert(content@.subrange(0, end as int).drop_last() =~= content@.subrange(
                    0,
                    end - 1,
                ));
                end = end - 1;
            }
            let mut line = "PATH=".to_string();
            line.append(content.substring_char(0, end));
            GeneratorOutput::Stdout(line)
        },
    }
}

} // verus!
