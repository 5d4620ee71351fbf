use vstd::prelude::*;

use crate::chat::{
    error_text, prepare_request, request_ok, select_reply, trimmed, Args, Request, Response,
    ResponseView,
};
use crate::error::ChatError;

verus! {

/// The command line, resolved: environment fallbacks and defaults applied.
pub struct Cli {
    /// The prompt to send.
    pub prompt: String,
    /// An optional file whose text is sent after the prompt.
    pub input: Option<String>,
    pub api_key: String,
    pub model_name: String,
    /// Seconds to wait for the response.
    pub timeout: u64,
    /// Where to write the reply instead of standard output.
    pub output: Option<String>,
    /// Write the reply back into the input file.
    pub in_place: bool,
    /// Echo the payload before sending it.
    pub debug: bool,
}

/// The message sent: the prompt alone, or the prompt followed by the input
/// text fenced in triple backticks.
pub open spec fn message_text(prompt: Seq<char>, input_text: Option<Seq<char>>) -> Seq<char> {
    match input_text {
        None => prompt,
        Some(c) => prompt + " ```"@ + c + "```"@,
    }
}

/// The view of an optional `&str`.
pub open spec fn opt_str(s: Option<&str>) -> Option<Seq<char>> {
    match s {
        Some(t) => Some(t@),
        None => None,
    }
}

/// Builds the message from the prompt and, when an input file was read, its text.
pub fn derive_message(prompt: &str, input_text: Option<&str>) -> (r: String)
    ensures
        r@ == message_text(prompt@, opt_str(input_text)),
{
    let mut m = prompt.to_owned();
    match input_text {
        Some(c) => {
            m.append(" ```");
            m.append(c);
            m.append("```");
        },
        None => {},
    }
    m
}

/// Where the reply goes.
#[derive(Debug, PartialEq, Eq)]
pub enum Output {
    /// Printed as is; the text ends with a newline.
    Stdout(String),
    /// Written to the file at `path`, replacing what it held.
    File { path: String, contents: String },
}

/// The in-place flag needs an input file.
pub open spec fn in_place_refused(cli: Cli) -> bool {
    cli.in_place && cli.input is None
}

/// Where a reply of text `t` goes for `cli`.
pub open spec fn output_ok(o: Output, cli: Cli, t: Seq<char>) -> bool {
    if cli.in_place && cli.input is Some {
        o matches Output::File { path, contents } && path@ == cli.input->0@ && contents@ == t
    } else if cli.output is Some {
        o matches Output::File { path, contents } && path@ == cli.output->0@ && contents@ == t
    } else {
        o matches Output::Stdout(s) && s@ == t + "\n"@
    }
}

impl Cli {
    /// The message for this command line; `input_text` is the text read
    /// from `self.input`, if one was given.
    pub fn get_full_message(&self, input_text: Option<&str>) -> (r: String)
        requires
            self.input is Some <==> input_text is Some,
        ensures
            r@ == message_text(self.prompt@, opt_str(input_text)),
    {
        derive_message(self.prompt.as_str(), input_text)
    }

    /// Refuses `--in-place` without an input file.
    pub fn check(&self) -> (r: Result<(), ChatError>)
        ensures
            in_place_refused(*self) ==> r == Err::<(), ChatError>(ChatError::InPlaceWithoutInput),
            !in_place_refused(*self) ==> r is Ok,
    {
        if self.in_place && self.input.is_none() {
            Err(ChatError::InPlaceWithoutInput)
        } else {
            Ok(())
        }
    }

    /// The arguments of `post` for `message`.
    pub fn args<'a>(&'a self, message: &'a str) -> (r: Args<'a>)
        ensures
            r.message@ == message@,
            r.api_key@ == self.api_key@,
            r.model_name@ == self.model_name@,
            *r.timeout == self.timeout,
            *r.debug == self.debug,
    {
        Args {
            message,
            api_key: self.api_key.as_str(),
            model_name: self.model_name.as_str(),
            timeout: &self.timeout,
            debug: &self.debug,
        }
    }

    /// Where the reply `text` goes: back into the input file in place mode,
    /// else to the output file, else to standard output with a newline.
    pub fn route(&self, text: String) -> (r: Output)
        ensures
            output_ok(r, *self, text@),
    {
        match (&self.input, self.in_place) {
            (Some(p), true) => Output::File { path: p.clone(), contents: text },
            _ => match &self.output {
                Some(p) => Output::File { path: p.clone(), contents: text },
                None => {
                    let mut s = text;
                    s.append("\n");
                    Output::Stdout(s)
                },
            },
        }
    }
}

/// What precedes the network call: the flag check, then the message, then the
/// request. `input_text` is the text read from `cli.input`, if one was given.
pub fn prepare(cli: &Cli, input_text: Option<&str>) -> (r: Result<Request, ChatError>)
    requires
        cli.input is Some <==> input_text is Some,
    ensures
        in_place_refused(*cli) ==> r == Err::<Request, ChatError>(ChatError::InPlaceWithoutInput),
        !in_place_refused(*cli) ==> request_ok(
            r,
            cli.model_name@,
            message_text(cli.prompt@, opt_str(input_text)),
            cli.api_key@,
            cli.timeout,
            cli.debug,
        ),
{
    cli.check()?;
    let message = cli.get_full_message(input_text);
    let args = cli.args(message.as_str());
    let r = prepare_request(&args);
    r
}

/// What follows the network call: the flag check again, then the reply is
/// selected and routed.
pub fn finish(cli: &Cli, response: &Response) -> (r: Result<Output, ChatError>)
    ensures
        in_place_refused(*cli) ==> r == Err::<Output, ChatError>(ChatError::InPlaceWithoutInput),
        !in_place_refused(*cli) ==> match response@ {
            ResponseView::Error(e) => r matches Err(ChatError::Api(t)) && t@ == error_text(e),
            ResponseView::Success(s) => if s.choices.len() == 0 {
                r == Err::<Output, ChatError>(ChatError::NoText)
            } else {
                r matches Ok(o) && output_ok(o, *cli, trimmed(s.choices.last().message.content))
            },
        },
{
    cli.check()?;
    let text = select_reply(response)?;
    Ok(cli.route(text))
}


/// Without an input the message is the prompt itself; with one it holds the
/// prompt at its start and the whole input text after the opening fence.
pub proof fn lemma_message_holds_prompt_and_input(prompt: Seq<char>, input_text: Seq<char>)
    ensures
        message_text(prompt, None) == prompt,
        message_text(prompt, Some(input_text)).subrange(0, prompt.len() as int) == prompt,
        message_text(prompt, Some(input_text)).subrange(
            prompt.len() + 4 as int,
            prompt.len() + 4 + input_text.len() as int,
        ) == input_text,
{
    reveal_strlit(" ```");
    reveal_strlit("```");
    let m = message_text(prompt, Some(input_text));
    assert(m.subrange(0, prompt.len() as int) =~= prompt);
    assert(m.subrange(prompt.len() + 4 as int, prompt.len() + 4 + input_text.len() as int) =~= input_text);
}

} // verus!
