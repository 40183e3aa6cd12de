//! The runtime workspace: its collision-free name, the session name, and the
//! immutable table of every artifact path derived from it.
use vstd::prelude::*;

use crate::text::dec_rep;
use crate::text::lemma_dec_rep_digits;
use crate::text::lemma_dec_rep_injective;
use crate::text::u64_to_dec;

verus! {

/// The workspace directory name for one invocation: the program name, the
/// process id, a millisecond timestamp and a per-invocation nonce,
/// dot-separated. The nonce keeps two invocations apart even when they start
/// within the same millisecond under the same process id.
pub open spec fn dir_name_spec(pid: int, epoch_ms: int, nonce: int) -> Seq<char> {
    "arliamp."@ + dec_rep(pid) + "."@ + dec_rep(epoch_ms) + "."@ + dec_rep(nonce)
}

/// The workspace directory name, executably. The caller draws `nonce` once
/// per invocation from an entropy source.
pub fn runtime_dir_name(pid: u64, epoch_ms: u64, nonce: u64) -> (r: String)
    ensures
        r@ == dir_name_spec(pid as int, epoch_ms as int, nonce as int),
{
    let mut s = String::from_str("arliamp.");
    let p = u64_to_dec(pid);
    s.append(p.as_str());
    s.append(".");
    let e = u64_to_dec(epoch_ms);
    s.append(e.as_str());
    s.append(".");
    let x = u64_to_dec(nonce);
    s.append(x.as_str());
    proof {
        assert(s@ =~= dir_name_spec(pid as int, epoch_ms as int, nonce as int));
    }
    s
}

/// The multiplexer session name for one invocation.
pub open spec fn session_name_spec(pid: int) -> Seq<char> {
    "arliamp-"@ + dec_rep(pid)
}

/// The multiplexer session name, executably.
pub fn session_name(pid: u64) -> (r: String)
    ensures
        r@ == session_name_spec(pid as int),
{
    let mut s = String::from_str("arliamp-");
    let p = u64_to_dec(pid);
    s.append(p.as_str());
    s
}

/// A path directly under a directory.
pub open spec fn joined_path(dir: Seq<char>, name: Seq<char>) -> Seq<char> {
    dir + "/"@ + name
}

/// Joins a file name onto a directory path, executably.
pub fn join_path(dir: &str, name: &str) -> (r: String)
    ensures
        r@ == joined_path(dir@, name@),
{
    let mut s = String::from_str(dir);
    s.append("/");
    s.append(name);
    s
}

/// Distinct (process id, timestamp, nonce) triples give distinct workspace
/// names: in particular two invocations that start within the same
/// millisecond under the same process id still get distinct names whenever
/// their nonces differ.
pub proof fn lemma_dir_names_distinct(p1: int, e1: int, x1: int, p2: int, e2: int, x2: int)
    requires
        p1 >= 0,
        e1 >= 0,
        x1 >= 0,
        p2 >= 0,
        e2 >= 0,
        x2 >= 0,
        p1 != p2 || e1 != e2 || x1 != x2,
    ensures
        dir_name_spec(p1, e1, x1) != dir_name_spec(p2, e2, x2),
{
    reveal_strlit("arliamp.");
    reveal_strlit(".");
    lemma_dec_rep_digits(p1);
    lemma_dec_rep_digits(p2);
    lemma_dec_rep_digits(e1);
    lemma_dec_rep_digits(e2);
    lemma_dec_rep_digits(x1);
    lemma_dec_rep_digits(x2);
    let n1 = dir_name_spec(p1, e1, x1);
    let n2 = dir_name_spec(p2, e2, x2);
    let a1 = dec_rep(p1);
    let a2 = dec_rep(p2);
    let b1 = dec_rep(e1);
    let b2 = dec_rep(e2);
    let c1 = dec_rep(x1);
    let c2 = dec_rep(x2);
    if n1 == n2 {
        // The first dot after the prefix sits right after the pid digits, so
        // equal names force equally long pid renderings.
        assert(n1.len() == 10 + a1.len() + b1.len() + c1.len());
        assert(forall|j: int| 0 <= j < a1.len() ==> n1[8 + j] == a1[j]);
        assert(forall|j: int| 0 <= j < a2.len() ==> n2[8 + j] == a2[j]);
        assert(n1[8 + a1.len() as int] == '.');
        assert(n2[8 + a2.len() as int] == '.');
        if a1.len() < a2.len() {
            assert(n2[8 + a1.len() as int] == a2[a1.len() as int]);
            assert('0' <= a2[a1.len() as int] && a2[a1.len() as int] <= '9');
            assert(false);
        }
        if a2.len() < a1.len() {
            assert(n1[8 + a2.len() as int] == a1[a2.len() as int]);
            assert('0' <= a1[a2.len() as int] && a1[a2.len() as int] <= '9');
            assert(false);
        }
        assert(a1.len() == a2.len());
        assert(a1 =~= a2);
        lemma_dec_rep_injective(p1, p2);
        // The second dot repeats the argument for the timestamp digits.
        assert(forall|j: int| 0 <= j < b1.len() ==> n1[9 + a1.len() + j] == b1[j]);
        assert(forall|j: int| 0 <= j < b2.len() ==> n2[9 + a2.len() + j] == b2[j]);
        assert(n1[9 + a1.len() + b1.len() as int] == '.');
        assert(n2[9 + a2.len() + b2.len() as int] == '.');
        if b1.len() < b2.len() {
            assert(n2[9 + a2.len() + b1.len() as int] == b2[b1.len() as int]);
            assert('0' <= b2[b1.len() as int] && b2[b1.len() as int] <= '9');
            assert(false);
        }
        if b2.len() < b1.len() {
            assert(n1[9 + a1.len() + b2.len() as int] == b1[b2.len() as int]);
            assert('0' <= b1[b2.len() as int] && b1[b2.len() as int] <= '9');
            assert(false);
        }
        assert(b1.len() == b2.len());
        assert(b1 =~= b2);
        lemma_dec_rep_injective(e1, e2);
        // Equal lengths leave the nonce digits aligned at the same offset.
        assert(c1.len() == c2.len());
        assert(forall|j: int| 0 <= j < c1.len() ==> n1[10 + a1.len() + b1.len() + j] == c1[j]);
        assert(forall|j: int| 0 <= j < c2.len() ==> n2[10 + a2.len() + b2.len() + j] == c2[j]);
        assert(c1 =~= c2);
        lemma_dec_rep_injective(x1, x2);
        assert(false);
    }
}

/// The fixed names of every artifact inside the workspace, resolved to full
/// paths, plus the session name: the immutable table every generated artifact
/// takes its cross-references from.
pub struct ArtifactPaths {
    pub runtime_dir: String,
    pub off_shader: String,
    pub static_shader: String,
    pub crazy_shader: String,
    pub state_file: String,
    pub toggle_script: String,
    pub tmux_conf: String,
    pub center_script: String,
    pub runner_script: String,
    pub ghostty_conf: String,
    pub tmux_socket: String,
    pub ghostty_pid_file: String,
}

impl ArtifactPaths {
    /// Every path sits directly under the runtime directory, under its fixed
    /// file name.
    pub open spec fn wf(&self, dir: Seq<char>) -> bool {
        &&& self.runtime_dir@ == dir
        &&& self.off_shader@ == joined_path(dir, "cyber-off.glsl"@)
        &&& self.static_shader@ == joined_path(dir, "cyber-static.glsl"@)
        &&& self.crazy_shader@ == joined_path(dir, "cyber-crazy.glsl"@)
        &&& self.state_file@ == joined_path(dir, "state"@)
        &&& self.toggle_script@ == joined_path(dir, "veo-toggle.sh"@)
        &&& self.tmux_conf@ == joined_path(dir, "tmux.conf"@)
        &&& self.center_script@ == joined_path(dir, "center.zsh"@)
        &&& self.runner_script@ == joined_path(dir, "runner.zsh"@)
        &&& self.ghostty_conf@ == joined_path(dir, "ghostty.conf"@)
        &&& self.tmux_socket@ == joined_path(dir, "tmux.sock"@)
        &&& self.ghostty_pid_file@ == joined_path(dir, "ghostty.pid"@)
    }

    /// Computes the whole path table from the runtime directory, before any
    /// artifact text is generated.
    pub fn build(runtime_dir: &str) -> (t: ArtifactPaths)
        ensures
            t.wf(runtime_dir@),
    {
        ArtifactPaths {
            runtime_dir: String::from_str(runtime_dir),
            off_shader: join_path(runtime_dir, "cyber-off.glsl"),
            static_shader: join_path(runtime_dir, "cyber-static.glsl"),
            crazy_shader: join_path(runtime_dir, "cyber-crazy.glsl"),
            state_file: join_path(runtime_dir, "state"),
            toggle_script: join_path(runtime_dir, "veo-toggle.sh"),
            tmux_conf: join_path(runtime_dir, "tmux.conf"),
            center_script: join_path(runtime_dir, "center.zsh"),
            runner_script: join_path(runtime_dir, "runner.zsh"),
            ghostty_conf: join_path(runtime_dir, "ghostty.conf"),
            tmux_socket: join_path(runtime_dir, "tmux.sock"),
            ghostty_pid_file: join_path(runtime_dir, "ghostty.pid"),
        }
    }
}

} // verus!
