//! A structured description of a Dockerfile.

use vstd::prelude::*;

verus! {

/// Represents a Dockerfile configuration generated from ranked files
#[derive(Debug, Clone)]
pub struct DockerfileConfig {
    /// The base image to use
    pub base_image: String,
    /// Working directory in the container
    pub workdir: String,
    /// Files that should be copied to the container
    pub files_to_copy: Vec<String>,
    /// Commands to run on build (RUN instructions)
    pub build_commands: Vec<String>,
    /// Environment variables to set
    pub env_vars: Vec<(String, String)>,
    /// Ports to expose
    pub expose_ports: Vec<u16>,
    /// Command to run when the container starts
    pub cmd: Vec<String>,
    /// The complete Dockerfile content
    pub dockerfile_content: String,
}

impl DockerfileConfig {
    /// Create a new, empty Dockerfile configuration
    pub fn new() -> (r: Self)
        ensures
            r.base_image@.len() == 0,
            r.workdir@.len() == 0,
            r.files_to_copy@.len() == 0,
            r.build_commands@.len() == 0,
            r.env_vars@.len() == 0,
            r.expose_ports@.len() == 0,
            r.cmd@.len() == 0,
            r.dockerfile_content@.len() == 0,
    {
        Self {
            base_image: String::new(),
            workdir: String::new(),
            files_to_copy: Vec::new(),
            build_commands: Vec::new(),
            env_vars: Vec::new(),
            expose_ports: Vec::new(),
            cmd: Vec::new(),
            dockerfile_content: String::new(),
        }
    }
}

} // verus!
