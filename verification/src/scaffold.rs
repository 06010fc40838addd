//! The fluent scaffold builder: a template namespace, an output
//! directory, a parameter context and a list of post-processing commands,
//! assembled step by step and then processed into the output tree.  The
//! post-processors are plain command descriptions; the surrounding
//! application executes them in order once the tree is on disk.

use vstd::prelude::*;

use crate::context::RenderContext;
use crate::processor::{
    process_namespace, spec_process, OutputFile, OutputFileV, ProcessError, ProcessErrorV,
    SkipRule,
};
use crate::store::TemplateStore;

verus! {

/// Where a plan command runs: in the output directory, or in its parent
/// for the scaffold tools that create the directory themselves.
#[derive(Clone, Copy, Debug, PartialEq, Eq, Structural)]
pub enum StepDir {
    /// The output directory of the run.
    OutputDir,
    /// The output directory's parent.
    ParentDir,
}

/// A post-processing step: one external command with its working
/// directory, described for the process-execution collaborator.
#[derive(Debug)]
pub enum PostProcessor {
    /// Run `command` with `args` in `dir`; `description` is shown to the
    /// user.
    Command { command: String, args: Vec<String>, description: String, dir: StepDir },
}

/// The mathematical shape of a post-processing step.
pub struct PostProcessorV {
    pub command: Seq<char>,
    pub args: Seq<Seq<char>>,
    pub description: Seq<char>,
    pub dir: StepDir,
}

impl View for PostProcessor {
    type V = PostProcessorV;

    open spec fn view(&self) -> PostProcessorV {
        match self {
            PostProcessor::Command { command, args, description, dir } => PostProcessorV {
                command: command@,
                args: args.deep_view(),
                description: description@,
                dir: *dir,
            },
        }
    }
}

impl DeepView for PostProcessor {
    type V = PostProcessorV;

    open spec fn deep_view(&self) -> PostProcessorV {
        self.view()
    }
}

impl PostProcessor {
    /// A command step run in the output directory.
    pub fn command(command: String, args: Vec<String>, description: String) -> (r: PostProcessor)
        ensures
            r@ == (PostProcessorV {
                command: command@,
                args: args.deep_view(),
                description: description@,
                dir: StepDir::OutputDir,
            }),
    {
        PostProcessor::Command { command, args, description, dir: StepDir::OutputDir }
    }

    /// The same step, run in the output directory's parent.
    pub fn in_parent_dir(self) -> (r: PostProcessor)
        ensures
            r@ == (PostProcessorV { dir: StepDir::ParentDir, ..self@ }),
    {
        match self {
            PostProcessor::Command { command, args, description, .. } => PostProcessor::Command {
                command,
                args,
                description,
                dir: StepDir::ParentDir,
            },
        }
    }
}

/// A scaffold being assembled: where its templates live, where its output
/// goes, what parameters it renders with, and what runs afterwards.
#[derive(Debug)]
pub struct Scaffold {
    /// The namespace of the template store to process.
    pub template_path: String,
    /// The output directory; the process's working directory when absent.
    pub output_path: Option<String>,
    /// The rendering context.
    pub params: RenderContext,
    /// The commands to run after the tree is written.
    pub post_processors: Vec<PostProcessor>,
}

impl Scaffold {
    /// A scaffold over the namespace at `template_path`, with an empty
    /// context and no post-processors.
    pub fn new(template_path: String) -> (r: Scaffold)
        ensures
            r.template_path == template_path,
            r.output_path is None,
            r.params.wf(),
            r.params@ == Map::<Seq<char>, crate::context::CtxValueV>::empty(),
            r.post_processors@.len() == 0,
    {
        Scaffold {
            template_path,
            output_path: None,
            params: RenderContext::new(),
            post_processors: Vec::new(),
        }
    }

    /// Sets the output directory.
    pub fn output_to(self, path: String) -> (r: Scaffold)
        ensures
            r == (Scaffold { output_path: Some(path), ..self }),
    {
        Scaffold { output_path: Some(path), ..self }
    }

    /// Replaces the parameter context.
    pub fn with_params(self, params: RenderContext) -> (r: Scaffold)
        ensures
            r == (Scaffold { params, ..self }),
    {
        Scaffold { params, ..self }
    }

    /// Sets one parameter.
    pub fn with_param(self, key: &str, value: crate::context::CtxValue) -> (r: Scaffold)
        requires
            self.params.wf(),
        ensures
            r.template_path == self.template_path,
            r.output_path == self.output_path,
            r.post_processors == self.post_processors,
            r.params.wf(),
            r.params@ == self.params@.insert(key@, value@),
    {
        let mut s = self;
        s.params.insert(key, value);
        s
    }

    /// Appends a post-processing step.
    pub fn with_post_processor(self, processor: PostProcessor) -> (r: Scaffold)
        ensures
            r.template_path == self.template_path,
            r.output_path == self.output_path,
            r.params == self.params,
            r.post_processors@ == self.post_processors@.push(processor),
    {
        let mut s = self;
        s.post_processors.push(processor);
        s
    }

    /// Processes the namespace into its output tree, carrying the output
    /// directory and the post-processors over to the result.
    pub fn process(self, store: &TemplateStore, rules: &Vec<SkipRule>) -> (r: Result<
        ProcessedScaffold,
        ProcessError,
    >)
        requires
            self.params.wf(),
        ensures
            match r {
                Ok(p) => {
                    &&& spec_process(store@, self.template_path@, rules@, self.params@) == Ok::<
                        Seq<OutputFileV>,
                        ProcessErrorV,
                    >(p.outputs.deep_view())
                    &&& p.output_path@ == (if self.output_path is Some {
                        self.output_path->0@
                    } else {
                        Seq::<char>::empty()
                    })
                    &&& p.post_processors == self.post_processors
                },
                Err(e) => spec_process(store@, self.template_path@, rules@, self.params@) == Err::<
                    Seq<OutputFileV>,
                    ProcessErrorV,
                >(e@),
            },
    {
        let outputs = process_namespace(store, self.template_path.as_str(), rules, &self.params)?;
        let output_path = match self.output_path {
            Some(p) => p,
            None => String::new(),
        };
        Ok(ProcessedScaffold { output_path, outputs, post_processors: self.post_processors })
    }
}

/// A processed scaffold: the computed output tree, the directory it
/// belongs in, and the commands still to run.
#[derive(Debug)]
pub struct ProcessedScaffold {
    /// The output directory; the process's working directory when empty.
    pub output_path: String,
    /// The computed output tree.
    pub outputs: Vec<OutputFile>,
    /// The commands to run after the tree is written.
    pub post_processors: Vec<PostProcessor>,
}

impl ProcessedScaffold {
    /// The output directory.
    pub fn output_path(&self) -> (r: &String)
        ensures
            r == self.output_path,
    {
        &self.output_path
    }

    /// Marks the scaffold complete, once the application has written the
    /// tree and executed each post-processor in order.
    pub fn mark_complete(self) -> (r: CompletedScaffold)
        ensures
            r.output_path == self.output_path,
    {
        CompletedScaffold { output_path: self.output_path }
    }
}

/// A finished scaffold.
#[derive(Debug)]
pub struct CompletedScaffold {
    /// The output directory the tree was written to.
    pub output_path: String,
}

impl CompletedScaffold {
    /// The output directory.
    pub fn output_path(&self) -> (r: &String)
        ensures
            r == self.output_path,
    {
        &self.output_path
    }
}

} // verus!
