//! Plain-value process bookkeeping: the description of a command to
//! spawn, the tagged output lines a running process produces, and the
//! cycler over a configured application list. Spawning and killing
//! processes happens outside the library.

use vstd::prelude::*;

verus! {

/// Which stream a process output line came from.
#[derive(Debug, Clone, Copy, PartialEq, Eq, Structural)]
pub enum LogLevel {
    Stdout,
    Stderr,
}

/// One output line of a managed process.
#[derive(Debug, PartialEq, Eq)]
pub struct ProcessOutput {
    pub pid: u32,
    pub name: String,
    pub level: LogLevel,
    pub message: String,
}

/// The kind of a command-runner log record.
#[derive(Debug, Clone, Copy, PartialEq, Eq, Structural)]
pub enum LogType {
    Pid,
    Stdout,
    Stderr,
}

/// One command-runner log record: a process id, or a line of output.
#[derive(Debug, PartialEq, Eq)]
pub struct CmdrLog {
    pub log_type: LogType,
    pub app_name: String,
    pub content: Option<String>,
    pub pid: Option<i32>,
}

impl CmdrLog {
    /// A process-id record for an application.
    pub fn pid(app_name: &str, pid: u32) -> (r: CmdrLog)
        requires
            pid <= i32::MAX,
        ensures
            r.log_type == LogType::Pid,
            r.app_name@ == app_name@,
            r.content is None,
            r.pid == Some(pid as i32),
    {
        CmdrLog {
            log_type: LogType::Pid,
            app_name: app_name.to_owned(),
            content: None,
            pid: Some(pid as i32),
        }
    }

    /// An output record of the given kind for an application.
    pub fn stdout(log_type: LogType, app_name: &str, content: &str) -> (r: CmdrLog)
        ensures
            r.log_type == log_type,
            r.app_name@ == app_name@,
            r.content matches Some(c) && c@ == content@,
            r.pid is None,
    {
        CmdrLog {
            log_type,
            app_name: app_name.to_owned(),
            content: Some(content.to_owned()),
            pid: None,
        }
    }
}

/// A command to spawn: the application it belongs to, the program, its
/// arguments in order, and the working directory.
#[derive(Debug, PartialEq, Eq)]
pub struct ProcessBuilder {
    pub app_name: String,
    pub program: String,
    pub args: Vec<String>,
    pub work_dir: String,
}

impl ProcessBuilder {
    /// A command with no arguments yet.
    pub fn new(app_name: &str, program: &str, work_dir: &str) -> (r: ProcessBuilder)
        ensures
            r.app_name@ == app_name@,
            r.program@ == program@,
            r.work_dir@ == work_dir@,
            r.args@.len() == 0,
    {
        ProcessBuilder {
            program: program.to_owned(),
            app_name: app_name.to_owned(),
            args: Vec::new(),
            work_dir: work_dir.to_owned(),
        }
    }

    /// Appends one argument.
    pub fn arg(self, arg: &str) -> (r: ProcessBuilder)
        ensures
            r.app_name == self.app_name,
            r.program == self.program,
            r.work_dir == self.work_dir,
            r.args@.len() == self.args@.len() + 1,
            r.args@.map_values(|a: String| a@) == self.args@.map_values(|a: String| a@).push(
                arg@,
            ),
    {
        let mut args = self.args;
        let ghost pre = args@.map_values(|a: String| a@);
        args.push(arg.to_owned());
        proof {
            assert(args@.map_values(|a: String| a@) =~= pre.push(arg@));
        }
        ProcessBuilder {
            app_name: self.app_name,
            program: self.program,
            args,
            work_dir: self.work_dir,
        }
    }

    /// Appends a run of arguments, in order.
    pub fn args(self, args: &Vec<String>) -> (r: ProcessBuilder)
        ensures
            r.app_name == self.app_name,
            r.program == self.program,
            r.work_dir == self.work_dir,
            r.args@.map_values(|a: String| a@) == self.args@.map_values(|a: String| a@)
                + args@.map_values(|a: String| a@),
    {
        let mut out = self.args;
        let ghost pre = out@.map_values(|a: String| a@);
        let mut i: usize = 0;
        proof {
            assert(out@.map_values(|a: String| a@) =~= pre + args@.map_values(
                |a: String| a@,
            ).take(0));
        }
        while i < args.len()
            invariant
                i <= args@.len(),
                out@.map_values(|a: String| a@) == pre + args@.map_values(|a: String| a@).take(
                    i as int,
                ),
            decreases args@.len() - i,
        {
            let ghost sofar = out@.map_values(|a: String| a@);
            out.push(args[i].clone());
            i = i + 1;
            proof {
                assert(out@.map_values(|a: String| a@) =~= sofar.push(args@[i - 1]@));
                assert(pre + args@.map_values(|a: String| a@).take(i as int) =~= sofar.push(
                    args@[i - 1]@,
                ));
            }
        }
        proof {
            assert(args@.map_values(|a: String| a@).take(i as int) =~= args@.map_values(
                |a: String| a@,
            ));
        }
        ProcessBuilder {
            app_name: self.app_name,
            program: self.program,
            args: out,
            work_dir: self.work_dir,
        }
    }
}

/// The application cycler: a configured list and the index of the active
/// entry.
#[derive(Debug, PartialEq, Eq)]
pub struct CycleApps {
    pub apps: Vec<String>,
    pub active_index: usize,
}

impl CycleApps {
    /// A cycler over a list, starting at the first entry.
    pub fn new(apps: Vec<String>) -> (r: CycleApps)
        ensures
            r.apps == apps,
            r.active_index == 0,
    {
        CycleApps { apps, active_index: 0 }
    }

    /// Steps to the next entry, wrapping at the end, and returns the new
    /// index.
    pub fn next(&mut self) -> (r: usize)
        requires
            old(self).apps@.len() > 0,
        ensures
            final(self).apps == old(self).apps,
            final(self).active_index == (old(self).active_index + 1) % (old(
                self,
            ).apps@.len() as int),
            r == final(self).active_index,
    {
        let n = self.apps.len();
        let cur = self.active_index % n;
        let ghost old_idx = self.active_index as int;
        self.active_index = (cur + 1) % n;
        proof {
            assert((cur + 1) as int % (n as int) == (old_idx + 1) % (n as int))
                by (nonlinear_arith)
                requires
                    n > 0,
                    cur == old_idx % (n as int),
            ;
        }
        self.active_index
    }

    /// The entry at an index, where the list has one.
    pub fn get_app(&self, index: usize) -> (r: Option<&String>)
        ensures
            match r {
                Some(a) => index < self.apps@.len() && a == self.apps@[index as int],
                None => index >= self.apps@.len(),
            },
    {
        if index < self.apps.len() {
            Some(&self.apps[index])
        } else {
            None
        }
    }
}

} // verus!
