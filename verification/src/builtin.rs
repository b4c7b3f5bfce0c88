//! Built-in project skeletons and placeholder substitution.  Each
//! built-in template is a pure function from the project name to a fixed
//! set of files; a custom template's files instead pass through
//! [`instantiate_file`], which substitutes the placeholder token only in
//! files whose extension is on the text allow-list.

use vstd::prelude::*;

use crate::strutil::{replace_all, replace_all_str, str_eq};

verus! {

/// One file of a freshly instantiated project: a path relative to the
/// project directory, and its full text.
#[derive(Debug)]
pub struct TemplateFile {
    pub path: String,
    pub content: String,
}

pub struct TemplateFileV {
    pub path: Seq<char>,
    pub content: Seq<char>,
}

impl View for TemplateFile {
    type V = TemplateFileV;

    open spec fn view(&self) -> TemplateFileV {
        TemplateFileV { path: self.path@, content: self.content@ }
    }
}

/// The token a template writes where the project name belongs.
pub open spec fn placeholder() -> Seq<char> {
    "{{PROJECT_NAME}}"@
}

/// `content` with every placeholder token replaced by `name`.
pub open spec fn subst(content: Seq<char>, name: Seq<char>) -> Seq<char> {
    replace_all(content, placeholder(), name)
}

/// Replaces every placeholder token in `content` by `name`.
pub fn substitute_placeholders(content: &str, name: &str) -> (r: String)
    ensures
        r@ == subst(content@, name@),
{
    proof {
        reveal_strlit("{{PROJECT_NAME}}");
    }
    replace_all_str(content, "{{PROJECT_NAME}}", name)
}

/// The last position of `c` in `s`, if any.
pub open spec fn find_last(s: Seq<char>, c: char) -> Option<int>
    decreases s.len(),
{
    if s.len() == 0 {
        None
    } else if s[s.len() - 1] == c {
        Some(s.len() - 1)
    } else {
        find_last(s.drop_last(), c)
    }
}

/// The extension of the file a path names: what follows the last dot of
/// the last path segment, unless the dot starts the segment.
pub open spec fn spec_ext_of(path: Seq<char>) -> Option<Seq<char>> {
    let fname = match find_last(path, '/') {
        Some(i) => path.skip(i + 1),
        None => path,
    };
    match find_last(fname, '.') {
        None => None,
        Some(d) => if d == 0 {
            None
        } else {
            Some(fname.skip(d + 1))
        },
    }
}

/// The last position of `c` in `s`.
fn find_last_char(s: &str, slen: usize, c: char) -> (r: Option<usize>)
    requires
        slen == s@.len(),
    ensures
        match r {
            Some(i) => find_last(s@, c) == Some(i as int) && i < slen,
            None => find_last(s@, c) is None,
        },
{
    let mut j: usize = slen;
    proof {
        assert(s@.take(slen as int) =~= s@);
    }
    while j > 0
        invariant
            slen == s@.len(),
            j <= slen,
            find_last(s@, c) == find_last(s@.take(j as int), c),
        decreases j,
    {
        proof {
            assert(s@.take(j as int).drop_last() =~= s@.take(j - 1));
            assert(s@.take(j as int)[j - 1] == s@[j - 1]);
        }
        if s.get_char(j - 1) == c {
            return Some(j - 1);
        }
        j = j - 1;
    }
    proof {
        assert(s@.take(0) =~= Seq::<char>::empty());
    }
    None
}

/// The extension of the file `path` names, as [`spec_ext_of`] gives it.
pub fn extension_of(path: &str) -> (r: Option<String>)
    ensures
        match r {
            Some(e) => spec_ext_of(path@) == Some(e@),
            None => spec_ext_of(path@) is None,
        },
{
    let plen = path.unicode_len();
    let fname: &str = match find_last_char(path, plen, '/') {
        Some(i) => path.substring_char(i + 1, plen),
        None => path,
    };
    let flen = fname.unicode_len();
    match find_last_char(fname, flen, '.') {
        None => None,
        Some(d) => {
            if d == 0 {
                None
            } else {
                Some(String::from_str(fname.substring_char(d + 1, flen)))
            }
        },
    }
}

/// Whether an extension is on the allow-list of text files that a
/// custom template's substitution pass may rewrite.
pub open spec fn spec_text_extension(e: Seq<char>) -> bool {
    e == "rs"@ || e == "py"@ || e == "js"@ || e == "go"@ || e == "md"@ || e == "toml"@ || e
        == "json"@
}

/// Whether the file `path` names is scanned for placeholders.  Binary
/// assets and unrecognized extensions are copied verbatim, never
/// scanned.
pub open spec fn spec_substitutable(path: Seq<char>) -> bool {
    match spec_ext_of(path) {
        Some(e) => spec_text_extension(e),
        None => false,
    }
}

pub fn is_substitutable_path(path: &str) -> (r: bool)
    ensures
        r == spec_substitutable(path@),
{
    match extension_of(path) {
        None => false,
        Some(e) => {
            let es = e.as_str();
            str_eq(es, "rs") || str_eq(es, "py") || str_eq(es, "js") || str_eq(es, "go")
                || str_eq(es, "md") || str_eq(es, "toml") || str_eq(es, "json")
        },
    }
}

/// One file of a custom template after instantiation: placeholders are
/// substituted exactly in the files whose extension is on the text
/// allow-list; every other file keeps its content untouched.
pub fn instantiate_file(path: &str, content: &str, name: &str) -> (r: String)
    ensures
        spec_substitutable(path@) ==> r@ == subst(content@, name@),
        !spec_substitutable(path@) ==> r@ == content@,
{
    if is_substitutable_path(path) {
        substitute_placeholders(content, name)
    } else {
        String::from_str(content)
    }
}

/// The built-in template identifiers, fixed in code.
pub open spec fn is_builtin_name(s: Seq<char>) -> bool {
    s == "rust"@ || s == "python"@ || s == "node"@ || s == "go"@ || s == "bash"@ || s == "zsh"@
        || s == "bun"@
}

/// The built-in template identifiers as a sequence, for listing.
pub open spec fn builtin_names() -> Seq<Seq<char>> {
    seq!["rust"@, "python"@, "node"@, "go"@, "bash"@, "zsh"@, "bun"@]
}

pub const RUST_CARGO_TOML: &'static str = r#"[package]
name = "{{PROJECT_NAME}}"
version = "0.1.0"
edition = "2021"

[dependencies]
clap = { version = "4.0", features = ["derive"] }
anyhow = "1.0"
"#;

pub const RUST_MAIN_RS: &'static str = r#"use clap::{Parser, Subcommand};
use anyhow::Result;

#[derive(Parser)]
#[command(name = "{{PROJECT_NAME}}")]
#[command(about = "A CLI utility created with Murex")]
#[command(version = "0.1.0")]
struct Cli {
    #[command(subcommand)]
    command: Option<Commands>,
}

#[derive(Subcommand)]
enum Commands {
    /// Say hello
    Hello {
        /// Name to greet
        #[arg(short, long)]
        name: Option<String>,
    },
}

fn main() -> Result<()> {
    let cli = Cli::parse();

    match cli.command {
        Some(Commands::Hello { name }) => {
            let name = name.unwrap_or_else(|| "World".to_string());
            println!("Hello, {}!", name);
        }
        None => {
            println!("Welcome to {{PROJECT_NAME}}! Use --help for more information.");
        }
    }

    Ok(())
}
"#;

pub const RUST_README: &'static str = r#"# {{PROJECT_NAME}}

A CLI utility created with Murex.

## Installation

```bash
cargo build --release
```

## Usage

```bash
cargo run -- hello --name "Your Name"
```
"#;

pub const PYTHON_MAIN_PY: &'static str = r#"#!/usr/bin/env python3
"""
{{PROJECT_NAME}} - A CLI utility created with Murex
"""

import argparse
import sys

def main():
    parser = argparse.ArgumentParser(description='A CLI utility created with Murex')
    parser.add_argument('--version', action='version', version='%(prog)s 0.1.0')

    subparsers = parser.add_subparsers(dest='command', help='Available commands')

    # Hello command
    hello_parser = subparsers.add_parser('hello', help='Say hello')
    hello_parser.add_argument('-n', '--name', default='World', help='Name to greet')

    args = parser.parse_args()

    if args.command == 'hello':
        print(f"Hello, {args.name}!")
    else:
        print(f"Welcome to {{PROJECT_NAME}}! Use --help for more information.")

if __name__ == '__main__':
    main()
"#;

pub const PYTHON_REQUIREMENTS: &'static str = "# Add your dependencies here\n";

pub const PYTHON_README: &'static str = r#"# {{PROJECT_NAME}}

A CLI utility created with Murex.

## Installation

```bash
pip install -r requirements.txt
```

## Usage

```bash
python main.py hello --name "Your Name"
```
"#;

pub const NODE_PACKAGE_JSON: &'static str = r#"{
  "name": "{{PROJECT_NAME}}",
  "version": "0.1.0",
  "description": "A CLI utility created with Murex",
  "main": "index.js",
  "bin": {
    "{{PROJECT_NAME}}": "./index.js"
  },
  "scripts": {
    "start": "node index.js"
  },
  "dependencies": {
    "commander": "^9.0.0"
  },
  "keywords": ["cli"],
  "author": "",
  "license": "MIT"
}
"#;

pub const NODE_INDEX_JS: &'static str = r#"#!/usr/bin/env node

const { Command } = require('commander');
const program = new Command();

program
  .name('{{PROJECT_NAME}}')
  .description('A CLI utility created with Murex')
  .version('0.1.0');

program
  .command('hello')
  .description('Say hello')
  .option('-n, --name <name>', 'Name to greet', 'World')
  .action((options) => {
    console.log(`Hello, ${options.name}!`);
  });

if (process.argv.length === 2) {
  console.log('Welcome to {{PROJECT_NAME}}! Use --help for more information.');
} else {
  program.parse();
}
"#;

pub const NODE_README: &'static str = r#"# {{PROJECT_NAME}}

A CLI utility created with Murex.

## Installation

```bash
npm install
```

## Usage

```bash
node index.js hello --name "Your Name"
```
"#;

pub const GO_MOD: &'static str = r#"module {{PROJECT_NAME}}

go 1.19

require github.com/spf13/cobra v1.6.1

require (
	github.com/inconshreveable/mousetrap v1.0.1 // indirect
	github.com/spf13/pflag v1.0.5 // indirect
)
"#;

pub const GO_MAIN_GO: &'static str = r#"package main

import (
	"fmt"
	"os"

	"github.com/spf13/cobra"
)

var rootCmd = &cobra.Command{
	Use:   "{{PROJECT_NAME}}",
	Short: "A CLI utility created with Murex",
	Long:  "A CLI utility created with Murex",
	Run: func(cmd *cobra.Command, args []string) {
		fmt.Println("Welcome to {{PROJECT_NAME}}! Use --help for more information.")
	},
}

var helloCmd = &cobra.Command{
	Use:   "hello",
	Short: "Say hello",
	Run: func(cmd *cobra.Command, args []string) {
		name, _ := cmd.Flags().GetString("name")
		fmt.Printf("Hello, %s!\n", name)
	},
}

func init() {
	helloCmd.Flags().StringP("name", "n", "World", "Name to greet")
	rootCmd.AddCommand(helloCmd)
}

func main() {
	if err := rootCmd.Execute(); err != nil {
		fmt.Println(err)
		os.Exit(1)
	}
}
"#;

pub const GO_README: &'static str = r#"# {{PROJECT_NAME}}

A CLI utility created with Murex.

## Installation

```bash
go build -o {{PROJECT_NAME}}
```

## Usage

```bash
./{{PROJECT_NAME}} hello --name "Your Name"
```
"#;

pub const BASH_MAIN_SH: &'static str = r#"#!/bin/bash

# {{PROJECT_NAME}}
# A CLI utility created with Murex

# Hello command
hello() {
    name=${1:-World}
    echo "Hello, $name!"
}

# Main function
main() {
    case $1 in
        hello)
            hello $2
            ;;
        --help|-h)
            echo "Usage: {{PROJECT_NAME}} [command] [options]"
            echo "Commands:"
            echo "  hello [name]  Say hello to someone"
            echo "  --help        Show this help message"
            ;;
        *)
            echo "Welcome to {{PROJECT_NAME}}! Use --help for more information."
            ;;
    esac
}

main "$@"
"#;

pub const BASH_README: &'static str = r#"# {{PROJECT_NAME}}

A CLI utility created with Murex.

## Installation

```bash
chmod +x main.sh
```

## Usage

```bash
./main.sh hello "Your Name"
```
"#;

pub const ZSH_MAIN_ZSH: &'static str = r#"#!/bin/zsh

# {{PROJECT_NAME}}
# A CLI utility created with Murex

# Hello command
hello() {
    name=${1:-World}
    echo "Hello, $name!"
}

# Main function
main() {
    case $1 in
        hello)
            hello $2
            ;;
        --help|-h)
            echo "Usage: {{PROJECT_NAME}} [command] [options]"
            echo "Commands:"
            echo "  hello [name]  Say hello to someone"
            echo "  --help        Show this help message"
            ;;
        *)
            echo "Welcome to {{PROJECT_NAME}}! Use --help for more information."
            ;;
    esac
}

main "$@"
"#;

pub const ZSH_README: &'static str = r#"# {{PROJECT_NAME}}

A CLI utility created with Murex.

## Installation

```bash
chmod +x main.zsh
```

## Usage

```bash
./main.zsh hello "Your Name"
```
"#;

pub const BUN_BUN_JS: &'static str = r#"#!/usr/bin/env bun

import { Command } from 'bun';

const program = new Command();

program
  .name('{{PROJECT_NAME}}')
  .description('A CLI utility created with Murex')
  .version('0.1.0');

program
  .command('hello')
  .description('Say hello')
  .option('-n, --name <n>', 'Name to greet', 'World')
  .action((options) => {
    console.log(`Hello, ${options.name}!`);
  });

if (process.argv.length === 2) {
  console.log('Welcome to {{PROJECT_NAME}}! Use --help for more information.');
} else {
  program.parse();
}
"#;

pub const BUN_README: &'static str = r#"# {{PROJECT_NAME}}

A CLI utility created with Murex.

## Installation

```bash
bun install
```

## Usage

```bash
bun run bun.js hello --name "Your Name"
```
"#;

/// The files of the built-in compiled-language skeleton.
pub open spec fn rust_files_v(name: Seq<char>) -> Seq<TemplateFileV> {
    seq![
        TemplateFileV { path: "Cargo.toml"@, content: subst(RUST_CARGO_TOML@, name) },
        TemplateFileV { path: "src/main.rs"@, content: subst(RUST_MAIN_RS@, name) },
        TemplateFileV { path: "README.md"@, content: subst(RUST_README@, name) },
    ]
}

pub open spec fn python_files_v(name: Seq<char>) -> Seq<TemplateFileV> {
    seq![
        TemplateFileV { path: "main.py"@, content: subst(PYTHON_MAIN_PY@, name) },
        TemplateFileV { path: "requirements.txt"@, content: subst(PYTHON_REQUIREMENTS@, name) },
        TemplateFileV { path: "README.md"@, content: subst(PYTHON_README@, name) },
    ]
}

pub open spec fn node_files_v(name: Seq<char>) -> Seq<TemplateFileV> {
    seq![
        TemplateFileV { path: "package.json"@, content: subst(NODE_PACKAGE_JSON@, name) },
        TemplateFileV { path: "index.js"@, content: subst(NODE_INDEX_JS@, name) },
        TemplateFileV { path: "README.md"@, content: subst(NODE_README@, name) },
    ]
}

pub open spec fn go_files_v(name: Seq<char>) -> Seq<TemplateFileV> {
    seq![
        TemplateFileV { path: "go.mod"@, content: subst(GO_MOD@, name) },
        TemplateFileV { path: "main.go"@, content: subst(GO_MAIN_GO@, name) },
        TemplateFileV { path: "README.md"@, content: subst(GO_README@, name) },
    ]
}

pub open spec fn bash_files_v(name: Seq<char>) -> Seq<TemplateFileV> {
    seq![
        TemplateFileV { path: "main.sh"@, content: subst(BASH_MAIN_SH@, name) },
        TemplateFileV { path: "README.md"@, content: subst(BASH_README@, name) },
    ]
}

pub open spec fn zsh_files_v(name: Seq<char>) -> Seq<TemplateFileV> {
    seq![
        TemplateFileV { path: "main.zsh"@, content: subst(ZSH_MAIN_ZSH@, name) },
        TemplateFileV { path: "README.md"@, content: subst(ZSH_README@, name) },
    ]
}

pub open spec fn bun_files_v(name: Seq<char>) -> Seq<TemplateFileV> {
    seq![
        TemplateFileV { path: "bun.js"@, content: subst(BUN_BUN_JS@, name) },
        TemplateFileV { path: "README.md"@, content: subst(BUN_README@, name) },
    ]
}

/// The files a built-in template synthesizes for `name`, keyed by the
/// template identifier.
pub open spec fn builtin_files_v(template: Seq<char>, name: Seq<char>) -> Seq<TemplateFileV>
    recommends
        is_builtin_name(template),
{
    if template == "rust"@ {
        rust_files_v(name)
    } else if template == "python"@ {
        python_files_v(name)
    } else if template == "node"@ {
        node_files_v(name)
    } else if template == "go"@ {
        go_files_v(name)
    } else if template == "bash"@ {
        bash_files_v(name)
    } else if template == "zsh"@ {
        zsh_files_v(name)
    } else {
        bun_files_v(name)
    }
}

fn file_of(path: &'static str, raw: &'static str, name: &str) -> (r: TemplateFile)
    ensures
        r@ == (TemplateFileV { path: path@, content: subst(raw@, name@) }),
{
    TemplateFile { path: String::from_str(path), content: substitute_placeholders(raw, name) }
}

/// The file set a built-in template synthesizes, or `None` when the
/// identifier is not a built-in.
pub fn builtin_project_files(template: &str, name: &str) -> (r: Option<Vec<TemplateFile>>)
    ensures
        match r {
            Some(files) => is_builtin_name(template@) && files@.map_values(|f: TemplateFile| f@)
                == builtin_files_v(template@, name@),
            None => !is_builtin_name(template@),
        },
{
    let mut files: Vec<TemplateFile> = Vec::new();
    if str_eq(template, "rust") {
        files.push(file_of("Cargo.toml", RUST_CARGO_TOML, name));
        files.push(file_of("src/main.rs", RUST_MAIN_RS, name));
        files.push(file_of("README.md", RUST_README, name));
        proof {
            assert(files@.map_values(|f: TemplateFile| f@) =~= rust_files_v(name@));
        }
        Some(files)
    } else if str_eq(template, "python") {
        files.push(file_of("main.py", PYTHON_MAIN_PY, name));
        files.push(file_of("requirements.txt", PYTHON_REQUIREMENTS, name));
        files.push(file_of("README.md", PYTHON_README, name));
        proof {
            assert(files@.map_values(|f: TemplateFile| f@) =~= python_files_v(name@));
        }
        Some(files)
    } else if str_eq(template, "node") {
        files.push(file_of("package.json", NODE_PACKAGE_JSON, name));
        files.push(file_of("index.js", NODE_INDEX_JS, name));
        files.push(file_of("README.md", NODE_README, name));
        proof {
            assert(files@.map_values(|f: TemplateFile| f@) =~= node_files_v(name@));
        }
        Some(files)
    } else if str_eq(template, "go") {
        files.push(file_of("go.mod", GO_MOD, name));
        files.push(file_of("main.go", GO_MAIN_GO, name));
        files.push(file_of("README.md", GO_README, name));
        proof {
            assert(files@.map_values(|f: TemplateFile| f@) =~= go_files_v(name@));
        }
        Some(files)
    } else if str_eq(template, "bash") {
        files.push(file_of("main.sh", BASH_MAIN_SH, name));
        files.push(file_of("README.md", BASH_README, name));
        proof {
            assert(files@.map_values(|f: TemplateFile| f@) =~= bash_files_v(name@));
        }
        Some(files)
    } else if str_eq(template, "zsh") {
        files.push(file_of("main.zsh", ZSH_MAIN_ZSH, name));
        files.push(file_of("README.md", ZSH_README, name));
        proof {
            assert(files@.map_values(|f: TemplateFile| f@) =~= zsh_files_v(name@));
        }
        Some(files)
    } else if str_eq(template, "bun") {
        files.push(file_of("bun.js", BUN_BUN_JS, name));
        files.push(file_of("README.md", BUN_README, name));
        proof {
            assert(files@.map_values(|f: TemplateFile| f@) =~= bun_files_v(name@));
        }
        Some(files)
    } else {
        None
    }
}

} // verus!
