use csv_light_editor::ai_script::error::{ExecutionError, FailureClass};
use csv_light_editor::ai_script::security::{deny_patterns, SecurityValidator};
use csv_light_editor::pattern::compile;

#[test]
fn benign_script_passes() {
    let v = SecurityValidator::new();
    let script = "import json\nimport re\ndata = json.loads(input())\nprint(json.dumps({'type': 'analysis'}))\n";
    assert_eq!(v.validate_script(script), Ok(()));
    assert!(!v.is_dangerous_operation(script));
}

#[test]
fn every_denied_construct_is_refused() {
    let v = SecurityValidator::new();
    let scripts = [
        "import os",
        "from os import path",
        "import  shutil",
        "from shutil import rmtree",
        "f = open('x')",
        "file ('x')",
        "import subprocess",
        "from subprocess import run",
        "os.system('ls')",
        "os.popen('ls')",
        "os.exec('ls')",
        "__import__('os')",
        "eval('1')",
        "exec('1')",
        "compile('1', '', 'eval')",
        "import urllib",
        "import requests",
        "import http",
        "import socket",
        "from urllib import request",
        "from requests import get",
        "from http import client",
        "from socket import socket",
        "import sys",
        "sys.exit(1)",
        "sys.modules",
        "import ctypes",
        "import multiprocessing",
        "x.__getattr__('y')",
        "x.__setattr__('y', 1)",
    ];
    assert_eq!(scripts.len(), deny_patterns().len());
    for script in scripts {
        assert!(v.is_dangerous_operation(script), "{}", script);
        let err = v.validate_script(script).unwrap_err();
        assert_eq!(err.class(), FailureClass::SecurityViolation);
    }
}

#[test]
fn the_first_matching_pattern_is_named() {
    let v = SecurityValidator::new();
    let err = v.validate_script("x = 1\nimport sys\nresult = eval('2')\n").unwrap_err();
    assert_eq!(err, ExecutionError::SecurityViolation { pattern: r"eval\s*\(".to_string() });
    assert_eq!(
        err.message(),
        r"Security validation failed: Dangerous operation detected: eval\s*\("
    );
    let err = v.validate_script("import   os").unwrap_err();
    assert_eq!(err, ExecutionError::SecurityViolation { pattern: r"import\s+os".to_string() });
}

#[test]
fn a_broken_pattern_is_left_out_and_the_others_stay_in_force() {
    let v = SecurityValidator::with_patterns(&vec!["(", r"eval\s*\(", "[", r"import\s+os"]);
    assert_eq!(
        v.validate_script("eval('1')"),
        Err(ExecutionError::SecurityViolation { pattern: r"eval\s*\(".to_string() })
    );
    assert_eq!(
        v.validate_script("import os"),
        Err(ExecutionError::SecurityViolation { pattern: r"import\s+os".to_string() })
    );
    assert_eq!(v.validate_script("print(1)"), Ok(()));
    let none = SecurityValidator::with_patterns(&vec!["("]);
    assert_eq!(none.validate_script("eval('1')"), Ok(()));
}

#[test]
fn every_pattern_of_the_deny_list_is_in_force() {
    let patterns = deny_patterns();
    assert_eq!(patterns.len(), 30);
    for pattern in &patterns {
        assert!(compile(pattern).is_some(), "{} does not compile", pattern);
    }
    // The last pattern of the list is in force, so none before it was left out
    // in a way that emptied the list.
    let v = SecurityValidator::new();
    assert_eq!(
        v.validate_script("a.__setattr__('b', 1)"),
        Err(ExecutionError::SecurityViolation { pattern: r"\.__setattr__\s*\(".to_string() })
    );
}

#[test]
fn the_default_validator_denies() {
    assert!(SecurityValidator::default().is_dangerous_operation("import os"));
}
