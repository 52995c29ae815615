use vstd::prelude::*;

verus! {

/// What one sandboxed execution may consume.
pub struct MandatoryLimits {
    /// Memory ceiling of the control group, in KB.
    pub memory: u32,
    /// CPU time, in seconds.
    pub cpu_time: u32,
    /// Wall-clock time, in seconds.
    pub wall_time: u32,
    /// Grace period after the CPU time before a hard kill, in seconds.
    pub extra_time: u32,
    pub max_open_files: u32,
    /// Largest file the program may write, in bytes.
    pub max_file_size: u32,
    pub max_number_of_processes: u32,
}

impl MandatoryLimits {
    /// Every limit is positive.
    pub open spec fn wf(&self) -> bool {
        &&& self.memory > 0
        &&& self.cpu_time > 0
        &&& self.wall_time > 0
        &&& self.extra_time > 0
        &&& self.max_open_files > 0
        &&& self.max_file_size > 0
        &&& self.max_number_of_processes > 0
    }

    pub fn is_valid(&self) -> (r: bool)
        ensures
            r == self.wf(),
    {
        self.memory > 0 && self.cpu_time > 0 && self.wall_time > 0 && self.extra_time > 0
            && self.max_open_files > 0 && self.max_file_size > 0
            && self.max_number_of_processes > 0
    }
}

} // verus!
