//! Dockerfile builder.
//!
//! A [`DockerImage`] is a list of Dockerfile instructions grown by chained
//! builder calls, plus the local files and directories that must travel with
//! the build as its context. `dockerfile` renders the instructions joined by
//! newlines.

use vstd::prelude::*;

use crate::text::{dec_str, i32_to_string, join_strs, join_with, spec_lines, split_lines, join_strings};

verus! {

use vstd::string::StringExecFns;

/// A file or directory to include in the Docker build context.
#[derive(Debug, Clone)]
pub struct DockerImageContext {
    /// Where the file or directory lies locally.
    pub source_path: String,
    /// Where it lands in the context archive.
    pub archive_path: String,
}

/// A Docker image described by a series of Dockerfile instructions.
#[derive(Debug, Clone)]
pub struct DockerImage {
    instructions: Vec<String>,
    contexts: Vec<DockerImageContext>,
}

/// A string in double quotes.
pub open spec fn quoted(s: Seq<char>) -> Seq<char> {
    "\""@ + s + "\""@
}

/// The views of a list of string slices, each in double quotes.
pub open spec fn quoted_views(parts: Seq<&str>) -> Seq<Seq<char>> {
    parts.map_values(|p: &str| quoted(p@))
}

/// Quote each part and join with a comma and a space.
fn quote_join(parts: &[&str]) -> (r: String)
    ensures
        r@ == join_with(quoted_views(parts@), ", "@),
{
    let mut quoted_parts: Vec<String> = Vec::new();
    let mut i: usize = 0;
    while i < parts.len()
        invariant
            i <= parts@.len(),
            crate::text::string_views(quoted_parts@) == quoted_views(parts@.take(i as int)),
        decreases parts@.len() - i,
    {
        let mut q: String = "\"".to_owned();
        q.append(parts[i]);
        q.append("\"");
        proof {
            let old_views = crate::text::string_views(quoted_parts@);
            let new_views = crate::text::string_views(quoted_parts@.push(q));
            assert(old_views.len() == quoted_parts@.len());
            assert(quoted_views(parts@.take(i as int)).len() == i as int);
            assert(quoted_parts@.len() == i as int);
            assert(q@ == quoted(parts@[i as int]@));
            assert forall|j: int| 0 <= j < i + 1 implies new_views[j] == quoted_views(
                parts@.take(i + 1),
            )[j] by {
                assert(parts@.take(i + 1)[j] == parts@[j]);
                if j < i {
                    assert(parts@.take(i as int)[j] == parts@[j]);
                    assert(quoted_parts@.push(q)[j] == quoted_parts@[j]);
                    assert(old_views[j] == quoted_views(parts@.take(i as int))[j]);
                }
            }
            assert(new_views =~= quoted_views(parts@.take(i + 1)));
        }
        quoted_parts.push(q);
        i = i + 1;
    }
    proof {
        assert(parts@.take(parts@.len() as int) =~= parts@);
    }
    join_strings(&quoted_parts, ", ")
}

impl DockerImage {
    /// The instructions so far, as character sequences.
    pub closed spec fn instrs(self) -> Seq<Seq<char>> {
        crate::text::string_views(self.instructions@)
    }

    /// The build contexts so far, as pairs of source path and archive path.
    pub closed spec fn ctxs(self) -> Seq<(Seq<char>, Seq<char>)> {
        self.contexts@.map_values(|c: DockerImageContext| (c.source_path@, c.archive_path@))
    }

    /// Start from a base image: one `FROM` instruction, no context.
    pub fn base(image: &str) -> (r: DockerImage)
        ensures
            r.instrs() == seq!["FROM "@ + image@],
            r.ctxs() == Seq::<(Seq<char>, Seq<char>)>::empty(),
    {
        let mut line: String = "FROM ".to_owned();
        line.append(image);
        let mut instructions: Vec<String> = Vec::new();
        instructions.push(line);
        let r = DockerImage { instructions, contexts: Vec::new() };
        proof {
            assert(r.instrs() =~= seq!["FROM "@ + image@]);
            assert(r.ctxs() =~= Seq::<(Seq<char>, Seq<char>)>::empty());
        }
        r
    }

    /// Start from a slim Debian-family base: `python:{version}-slim` when a
    /// Python version is given, `debian:12-slim` otherwise.
    pub fn debian_slim(python_version: Option<&str>) -> (r: DockerImage)
        ensures
            r.instrs() == seq![
                match python_version {
                    Some(v) => "FROM python:"@ + v@ + "-slim"@,
                    None => "FROM debian:12-slim"@,
                },
            ],
            r.ctxs() == Seq::<(Seq<char>, Seq<char>)>::empty(),
    {
        let line: String = match python_version {
            Some(version) => {
                let mut l: String = "FROM python:".to_owned();
                l.append(version);
                l.append("-slim");
                l
            },
            None => "FROM debian:12-slim".to_owned(),
        };
        let mut instructions: Vec<String> = Vec::new();
        instructions.push(line);
        let r = DockerImage { instructions, contexts: Vec::new() };
        proof {
            assert(r.instrs() =~= seq![
                match python_version {
                    Some(v) => "FROM python:"@ + v@ + "-slim"@,
                    None => "FROM debian:12-slim"@,
                },
            ]);
            assert(r.ctxs() =~= Seq::<(Seq<char>, Seq<char>)>::empty());
        }
        r
    }

    /// Start from existing Dockerfile content, one instruction per line.
    pub fn from_dockerfile(dockerfile: &str) -> (r: DockerImage)
        ensures
            r.instrs() == spec_lines(dockerfile@),
            r.ctxs() == Seq::<(Seq<char>, Seq<char>)>::empty(),
    {
        let instructions = split_lines(dockerfile);
        let r = DockerImage { instructions, contexts: Vec::new() };
        proof {
            assert(r.ctxs() =~= Seq::<(Seq<char>, Seq<char>)>::empty());
        }
        r
    }

    /// Append one instruction.
    fn push_instruction(self, line: String) -> (r: DockerImage)
        ensures
            r.instrs() == self.instrs().push(line@),
            r.ctxs() == self.ctxs(),
    {
        let mut r = self;
        r.instructions.push(line);
        proof {
            assert(r.instrs() =~= self.instrs().push(line@));
        }
        r
    }

    /// Add a `RUN` instruction.
    pub fn run(self, command: &str) -> (r: DockerImage)
        ensures
            r.instrs() == self.instrs().push("RUN "@ + command@),
            r.ctxs() == self.ctxs(),
    {
        let mut line: String = "RUN ".to_owned();
        line.append(command);
        self.push_instruction(line)
    }

    /// Add a `RUN pip install` instruction for the packages.
    pub fn pip_install(self, packages: &[&str]) -> (r: DockerImage)
        ensures
            r.instrs() == self.instrs().push(
                "RUN pip install "@ + join_with(crate::text::str_views(packages@), " "@),
            ),
            r.ctxs() == self.ctxs(),
    {
        let pkgs = join_strs(packages, " ");
        let mut line: String = "RUN pip install ".to_owned();
        line.append(pkgs.as_str());
        self.push_instruction(line)
    }

    /// Add a `RUN apt-get update && apt-get install` instruction.
    pub fn apt_get(self, packages: &[&str]) -> (r: DockerImage)
        ensures
            r.instrs() == self.instrs().push(
                "RUN apt-get update && apt-get install -y "@ + join_with(
                    crate::text::str_views(packages@),
                    " "@,
                ),
            ),
            r.ctxs() == self.ctxs(),
    {
        let pkgs = join_strs(packages, " ");
        let mut line: String = "RUN apt-get update && apt-get install -y ".to_owned();
        line.append(pkgs.as_str());
        self.push_instruction(line)
    }

    /// Add an `ENV` instruction, with the value in double quotes.
    pub fn env(self, key: &str, value: &str) -> (r: DockerImage)
        ensures
            r.instrs() == self.instrs().push("ENV "@ + key@ + "=\""@ + value@ + "\""@),
            r.ctxs() == self.ctxs(),
    {
        let mut line: String = "ENV ".to_owned();
        line.append(key);
        line.append("=\"");
        line.append(value);
        line.append("\"");
        self.push_instruction(line)
    }

    /// Add a `WORKDIR` instruction.
    pub fn workdir(self, path: &str) -> (r: DockerImage)
        ensures
            r.instrs() == self.instrs().push("WORKDIR "@ + path@),
            r.ctxs() == self.ctxs(),
    {
        let mut line: String = "WORKDIR ".to_owned();
        line.append(path);
        self.push_instruction(line)
    }

    /// Add an `ENTRYPOINT` instruction in exec form.
    pub fn entrypoint(self, cmd: &[&str]) -> (r: DockerImage)
        ensures
            r.instrs() == self.instrs().push(
                "ENTRYPOINT ["@ + join_with(quoted_views(cmd@), ", "@) + "]"@,
            ),
            r.ctxs() == self.ctxs(),
    {
        let args = quote_join(cmd);
        let mut line: String = "ENTRYPOINT [".to_owned();
        line.append(args.as_str());
        line.append("]");
        self.push_instruction(line)
    }

    /// Add a `CMD` instruction in exec form.
    pub fn cmd(self, cmd: &[&str]) -> (r: DockerImage)
        ensures
            r.instrs() == self.instrs().push(
                "CMD ["@ + join_with(quoted_views(cmd@), ", "@) + "]"@,
            ),
            r.ctxs() == self.ctxs(),
    {
        let args = quote_join(cmd);
        let mut line: String = "CMD [".to_owned();
        line.append(args.as_str());
        line.append("]");
        self.push_instruction(line)
    }

    /// Add a `USER` instruction.
    pub fn user(self, username: &str) -> (r: DockerImage)
        ensures
            r.instrs() == self.instrs().push("USER "@ + username@),
            r.ctxs() == self.ctxs(),
    {
        let mut line: String = "USER ".to_owned();
        line.append(username);
        self.push_instruction(line)
    }

    /// Add a `COPY` instruction.
    pub fn copy(self, src: &str, dst: &str) -> (r: DockerImage)
        ensures
            r.instrs() == self.instrs().push("COPY "@ + src@ + " "@ + dst@),
            r.ctxs() == self.ctxs(),
    {
        let mut line: String = "COPY ".to_owned();
        line.append(src);
        line.append(" ");
        line.append(dst);
        self.push_instruction(line)
    }

    /// Add an `ADD` instruction.
    pub fn add(self, src: &str, dst: &str) -> (r: DockerImage)
        ensures
            r.instrs() == self.instrs().push("ADD "@ + src@ + " "@ + dst@),
            r.ctxs() == self.ctxs(),
    {
        let mut line: String = "ADD ".to_owned();
        line.append(src);
        line.append(" ");
        line.append(dst);
        self.push_instruction(line)
    }

    /// Add one `EXPOSE` instruction per port.
    pub fn expose(self, ports: &[i32]) -> (r: DockerImage)
        ensures
            r.instrs() == self.instrs() + ports@.map_values(
                |p: i32| "EXPOSE "@ + dec_str(p as int),
            ),
            r.ctxs() == self.ctxs(),
    {
        let mut r = self;
        let mut i: usize = 0;
        proof {
            assert(r.instrs() + ports@.take(0).map_values(|p: i32| "EXPOSE "@ + dec_str(p as int))
                =~= r.instrs());
        }
        while i < ports.len()
            invariant
                i <= ports@.len(),
                r.instrs() == self.instrs() + ports@.take(i as int).map_values(
                    |p: i32| "EXPOSE "@ + dec_str(p as int),
                ),
                r.ctxs() == self.ctxs(),
            decreases ports@.len() - i,
        {
            let mut line: String = "EXPOSE ".to_owned();
            let rendered = i32_to_string(ports[i]);
            line.append(rendered.as_str());
            proof {
                assert(self.instrs() + ports@.take(i as int).map_values(
                    |p: i32| "EXPOSE "@ + dec_str(p as int),
                ).push(line@) =~= self.instrs() + ports@.take(i + 1).map_values(
                    |p: i32| "EXPOSE "@ + dec_str(p as int),
                ));
            }
            r = r.push_instruction(line);
            i = i + 1;
        }
        proof {
            assert(ports@.take(ports@.len() as int) =~= ports@);
        }
        r
    }

    /// Add a `LABEL` instruction, with the value in double quotes.
    pub fn label(self, key: &str, value: &str) -> (r: DockerImage)
        ensures
            r.instrs() == self.instrs().push("LABEL "@ + key@ + "=\""@ + value@ + "\""@),
            r.ctxs() == self.ctxs(),
    {
        let mut line: String = "LABEL ".to_owned();
        line.append(key);
        line.append("=\"");
        line.append(value);
        line.append("\"");
        self.push_instruction(line)
    }

    /// Add a `VOLUME` instruction with the paths in exec form.
    pub fn volume(self, paths: &[&str]) -> (r: DockerImage)
        ensures
            r.instrs() == self.instrs().push(
                "VOLUME ["@ + join_with(quoted_views(paths@), ", "@) + "]"@,
            ),
            r.ctxs() == self.ctxs(),
    {
        let vols = quote_join(paths);
        let mut line: String = "VOLUME [".to_owned();
        line.append(vols.as_str());
        line.append("]");
        self.push_instruction(line)
    }

    /// Record a local file as build context and add the matching `ADD`
    /// instruction.
    pub fn add_local_file(self, local: &str, remote: &str) -> (r: DockerImage)
        ensures
            r.instrs() == self.instrs().push("ADD "@ + local@ + " "@ + remote@),
            r.ctxs() == self.ctxs().push((local@, remote@)),
    {
        let mut with_ctx = self;
        with_ctx.contexts.push(
            DockerImageContext {
                source_path: local.to_owned(),
                archive_path: remote.to_owned(),
            },
        );
        proof {
            assert(with_ctx.ctxs() =~= self.ctxs().push((local@, remote@)));
            assert(with_ctx.instrs() =~= self.instrs());
        }
        with_ctx.add(local, remote)
    }

    /// Record a local directory as build context and add the matching `ADD`
    /// instruction.
    pub fn add_local_dir(self, local: &str, remote: &str) -> (r: DockerImage)
        ensures
            r.instrs() == self.instrs().push("ADD "@ + local@ + " "@ + remote@),
            r.ctxs() == self.ctxs().push((local@, remote@)),
    {
        let mut with_ctx = self;
        with_ctx.contexts.push(
            DockerImageContext {
                source_path: local.to_owned(),
                archive_path: remote.to_owned(),
            },
        );
        proof {
            assert(with_ctx.ctxs() =~= self.ctxs().push((local@, remote@)));
            assert(with_ctx.instrs() =~= self.instrs());
        }
        with_ctx.add(local, remote)
    }

    /// Render the Dockerfile: the instructions joined by newlines.
    pub fn dockerfile(&self) -> (r: String)
        ensures
            r@ == join_with(self.instrs(), "\n"@),
    {
        join_strings(&self.instructions, "\n")
    }

    /// The build contexts recorded for object-storage upload.
    pub fn contexts(&self) -> (r: &Vec<DockerImageContext>)
        ensures
            r@.map_values(|c: DockerImageContext| (c.source_path@, c.archive_path@))
                == self.ctxs(),
    {
        &self.contexts
    }
}

} // verus!
