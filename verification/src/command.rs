use vstd::prelude::*;
use vstd::string::*;

use crate::decimal::{append_i32, signed_decimal_text};

verus! {

/// A command line to run: program, arguments, working directory and
/// environment additions.
#[derive(Debug, PartialEq, Eq)]
pub struct Command {
    argv: Vec<String>,
    exe: String,
    cwd: Option<String>,
    env: Vec<(String, String)>,
}

/// The mathematical value of a [`Command`].
pub struct CommandView {
    pub argv: Seq<Seq<char>>,
    pub exe: Seq<char>,
    pub cwd: Option<Seq<char>>,
    pub env: Seq<(Seq<char>, Seq<char>)>,
}

/// The views of environment pairs.
pub open spec fn env_view(env: Seq<(String, String)>) -> Seq<(Seq<char>, Seq<char>)> {
    env.map_values(|p: (String, String)| (p.0@, p.1@))
}

impl View for Command {
    type V = CommandView;

    closed spec fn view(&self) -> CommandView {
        CommandView {
            argv: self.argv.deep_view(),
            exe: self.exe@,
            cwd: crate::schema::opt_str_view(self.cwd),
            env: env_view(self.env@),
        }
    }
}

/// The text of environment pairs: `k=v ` for each, in order.
pub open spec fn env_text(env: Seq<(Seq<char>, Seq<char>)>) -> Seq<char>
    decreases env.len(),
{
    if env.len() == 0 {
        Seq::empty()
    } else {
        env_text(env.drop_last()) + env.last().0 + "="@ + env.last().1 + " "@
    }
}

/// The text of arguments: ` a` for each, in order.
pub open spec fn args_text(argv: Seq<Seq<char>>) -> Seq<char>
    decreases argv.len(),
{
    if argv.len() == 0 {
        Seq::empty()
    } else {
        args_text(argv.drop_last()) + " "@ + argv.last()
    }
}

/// The shell-like rendering of a command: `cd <dir> && ` where a directory
/// is set, then the environment pairs, the program and the arguments.
pub open spec fn pretty_text(c: CommandView) -> Seq<char> {
    (match c.cwd {
        Some(d) => "cd "@ + d + " && "@,
        None => Seq::empty(),
    }) + env_text(c.env) + c.exe + args_text(c.argv)
}

impl Clone for Command {
    fn clone(&self) -> (r: Command)
        ensures
            r@ == self@,
    {
        let cwd = match &self.cwd {
            Some(d) => Some(d.clone()),
            None => None,
        };
        let mut env: Vec<(String, String)> = Vec::new();
        let mut i: usize = 0;
        while i < self.env.len()
            invariant
                i <= self.env.len(),
                env_view(env@) == env_view(self.env@).take(i as int),
            decreases self.env.len() - i,
        {
            let pair = (self.env[i].0.clone(), self.env[i].1.clone());
            let ghost prev = env@;
            env.push(pair);
            assert(env@ == prev.push(pair));
            assert(pair == self.env@[i as int]);
            assert(env_view(env@) =~= env_view(prev).push((pair.0@, pair.1@)));
            assert(env_view(env@) =~= env_view(self.env@).take(i + 1));
            i += 1;
        }
        assert(env_view(self.env@).take(self.env.len() as int) =~= env_view(self.env@));
        Command {
            argv: crate::schema::clone_strings(&self.argv),
            exe: self.exe.clone(),
            cwd,
            env,
        }
    }
}

impl Command {
    /// A command that runs `s` with no arguments, in the current directory,
    /// with no environment additions.
    pub fn new(s: &str) -> (r: Command)
        ensures
            r@.exe == s@,
            r@.argv.len() == 0,
            r@.cwd is None,
            r@.env.len() == 0,
    {
        let r = Command { exe: s.to_owned(), argv: Vec::new(), cwd: None, env: Vec::new() };
        assert(r@.argv =~= Seq::empty());
        assert(r@.env =~= Seq::empty());
        r
    }

    /// Appends an argument.
    pub fn arg(&mut self, a: &str) -> (r: &mut Self)
        ensures
            r@ == (CommandView { argv: old(self)@.argv.push(a@), ..old(self)@ }),
            *final(self) == *final(r),
    {
        let ghost prev = self.argv.deep_view();
        self.argv.push(a.to_owned());
        assert(self.argv.deep_view() =~= prev.push(a@));
        self
    }

    /// Appends an environment pair.
    pub fn env(&mut self, key: &str, value: &str) -> (r: &mut Self)
        ensures
            r@ == (CommandView { env: old(self)@.env.push((key@, value@)), ..old(self)@ }),
            *final(self) == *final(r),
    {
        let key = key.to_owned();
        let value = value.to_owned();
        let ghost prev = self.env@;
        self.env.push((key, value));
        assert(env_view(self.env@) =~= env_view(prev).push((key@, value@)));
        self
    }

    /// Sets the working directory, replacing any set before.
    pub fn current_dir(&mut self, cwd: &str) -> (r: &mut Self)
        ensures
            r@ == (CommandView { cwd: Some(cwd@), ..old(self)@ }),
            *final(self) == *final(r),
    {
        self.cwd = Some(cwd.to_owned());
        self
    }

    /// The program to run.
    pub fn exe(&self) -> (r: &str)
        ensures
            r@ == self@.exe,
    {
        self.exe.as_str()
    }

    /// The arguments, in order.
    pub fn args(&self) -> (r: &Vec<String>)
        ensures
            r.deep_view() == self@.argv,
    {
        &self.argv
    }

    /// The working directory, if one is set.
    pub fn working_dir(&self) -> (r: Option<&str>)
        ensures
            match r {
                Some(d) => self@.cwd == Some(d@),
                None => self@.cwd is None,
            },
    {
        match &self.cwd {
            Some(d) => Some(d.as_str()),
            None => None,
        }
    }

    /// The environment additions, in order.
    pub fn envs(&self) -> (r: &Vec<(String, String)>)
        ensures
            env_view(r@) == self@.env,
    {
        &self.env
    }

    /// The command rendered for people: `cd <dir> && ` where a directory is
    /// set, each environment pair as `k=v `, the program, then each argument
    /// after a space.
    pub fn to_string_pretty(&self) -> (r: String)
        ensures
            r@ == pretty_text(self@),
    {
        let mut out = String::new();
        if let Some(cwd) = &self.cwd {
            out.append("cd ");
            out.append(cwd.as_str());
            out.append(" && ");
        }
        let ghost head = out@;
        let mut i: usize = 0;
        while i < self.env.len()
            invariant
                i <= self.env.len(),
                out@ == head + env_text(env_view(self.env@).take(i as int)),
            decreases self.env.len() - i,
        {
            assert(env_view(self.env@).take(i + 1).drop_last() =~= env_view(self.env@).take(i as int));
            out.append(self.env[i].0.as_str());
            out.append("=");
            out.append(self.env[i].1.as_str());
            out.append(" ");
            i += 1;
        }
        assert(env_view(self.env@).take(self.env.len() as int) =~= env_view(self.env@));
        out.append(self.exe.as_str());
        let ghost mid = out@;
        let mut j: usize = 0;
        while j < self.argv.len()
            invariant
                j <= self.argv.len(),
                out@ == mid + args_text(self.argv.deep_view().take(j as int)),
            decreases self.argv.len() - j,
        {
            assert(self.argv.deep_view().take(j + 1).drop_last() =~= self.argv.deep_view().take(j as int));
            out.append(" ");
            out.append(self.argv[j].as_str());
            j += 1;
        }
        assert(self.argv.deep_view().take(self.argv.len() as int) =~= self.argv.deep_view());
        out
    }
}

/// How a child ended, as the report names it.
pub open spec fn exit_text(code: Option<i32>, signal: Option<i32>) -> Seq<char> {
    match code {
        Some(c) => "normal: "@ + signed_decimal_text(c as int),
        None => "signaled: "@ + signed_decimal_text(signal->0 as int),
    }
}

/// The report on a child that failed, given the rendered command and the
/// child's output.
pub open spec fn failure_report_text(
    code: Option<i32>,
    signal: Option<i32>,
    command: Seq<char>,
    stdout: Seq<char>,
    stderr: Seq<char>,
) -> Seq<char> {
    "error: child returned error\n"@ + "testgen did not finished successfully (exit code "@ + exit_text(
        code,
        signal,
    ) + ")\n"@ + "command: `"@ + command + "`\n"@ + "child stdout:\n"@ + stdout + "\n"@
        + "child stderr:\n"@ + stderr + "\n"@
}

impl Command {
    /// The report printed when the command, run quietly, failed: the exit
    /// code where the child exited, else the signal that ended it, the
    /// command as [`Command::to_string_pretty`] renders it, and the child's
    /// output.
    pub fn failure_report(&self, code: Option<i32>, signal: Option<i32>, stdout: &str, stderr: &str) -> (r: String)
        requires
            code is Some || signal is Some,
        ensures
            r@ == failure_report_text(code, signal, pretty_text(self@), stdout@, stderr@),
    {
        let mut out = String::new();
        out.append("error: child returned error\n");
        out.append("testgen did not finished successfully (exit code ");
        match code {
            Some(c) => {
                out.append("normal: ");
                append_i32(&mut out, c);
            },
            None => {
                out.append("signaled: ");
                match signal {
                    Some(s) => append_i32(&mut out, s),
                    None => {},
                }
            },
        }
        out.append(")\n");
        out.append("command: `");
        let pretty = self.to_string_pretty();
        out.append(pretty.as_str());
        out.append("`\n");
        out.append("child stdout:\n");
        out.append(stdout);
        out.append("\n");
        out.append("child stderr:\n");
        out.append(stderr);
        out.append("\n");
        assert(out@ =~= failure_report_text(code, signal, pretty_text(self@), stdout@, stderr@));
        out
    }
}

} // verus!
