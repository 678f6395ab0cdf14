use nix::sys::signal;
use pyc::shell::proc::ShellError;
use pyc::shellenv::ShellProcess;

#[test]
fn test_subprocess_output_only() {
    let argv: Vec<String> = vec![
        String::from("echo"),
        String::from("foo"),
        String::from("bar"),
    ];
    let mut process: ShellProcess = match ShellProcess::exec(argv) {
        Ok(p) => p,
        Err(error) => panic!("Could not start process 'echo foo bar': {:?}", error),
    };
    //We do not expect any input, go straight with the output
    loop {
        //Read stdout
        match process.read() {
            Ok((stdout, _)) => match stdout {
                Some(output) => {
                    println!("Echo Output: '{}'", output);
                    assert_eq!(output, String::from("foo bar\n"));
                }
                None => {}
            },
            Err(error) => {
                panic!("Could not read process stdout: {:?}", error);
            }
        }
        //If process is not running, exit
        if !process.is_running() {
            break;
        }
    }
    println!(
        "Process exited with exit status: {}",
        process.exit_status.unwrap()
    );
    assert_eq!(process.exit_status.unwrap(), 0); //Should be 0
}

#[test]
fn test_subprocess_io() {
    //the best and simplest example with this is CAT command :D
    let argv: Vec<String> = vec![String::from("cat")]; //No extra arg
    let mut process: ShellProcess = match ShellProcess::exec(argv) {
        Ok(p) => p,
        Err(error) => panic!("Could not start process 'cat': {:?}", error),
    };
    //Check if running and waiting
    assert!(process.is_running());
    println!("cat process started");
    //Write something, that should be echoed
    let input: String = String::from("Hello World!\n");
    if let Err(err) = process.write(input.clone()) {
        panic!("Could not write to cat stdin: {:?}", err);
    }
    println!("Wrote {}", input.clone());
    //Read, output should be equal to input
    match process.read() {
        Ok((stdout, _)) => match stdout {
            Some(output) => {
                println!("Cat Output: '{}'", output);
                assert_eq!(output, input);
            }
            None => {
                panic!("No input from cat");
            }
        },
        Err(error) => {
            panic!("Could not read process stdout: {:?}", error);
        }
    }
    //Process should still be running
    assert!(process.is_running());
    //Write something else
    let input: String = String::from("I don't care if monday's blue!\nTuesday's gray and Wednesday too\nThursday I don't care about you\nIt's Friday I'm in love\n");
    if let Err(err) = process.write(input.clone()) {
        panic!("Could not write to cat stdin: {:?}", err);
    }
    println!("Wrote {}", input.clone());
    //Read, output should be equal to input
    match process.read() {
        Ok((stdout, _)) => match stdout {
            Some(output) => {
                println!("Cat Output: '{}'", output);
                assert_eq!(output, input);
            }
            None => {
                panic!("No input from cat");
            }
        },
        Err(error) => {
            panic!("Could not read process stdout: {:?}", error);
        }
    }
    //Finally Send SIGINT
    if let Err(err) = process.raise(signal::Signal::SIGINT) {
        panic!("Could not send SIGINT to cat process: {:?}", err);
    }
    //Process should be terminated
    assert!(!process.is_running());
    //Exit code should be 2
    assert_eq!(process.exit_status.unwrap(), 2);
}

// Forceful termination: SIGKILL ends the child and records signal 9.
#[test]
fn test_kill_cat() {
    let argv: Vec<String> = vec![String::from("cat")];
    let mut process: ShellProcess = match ShellProcess::exec(argv) {
        Ok(p) => p,
        Err(error) => panic!("Could not start process 'cat': {:?}", error),
    };
    assert!(process.is_running());
    if let Err(err) = process.kill() {
        panic!("Could not kill 'cat' process: {:?}", err);
    }
    assert!(!process.is_running());
    //Exit code should be 9
    assert_eq!(process.exit_status.unwrap(), 9);
}

// Output written to the child's standard error reads back on the error
// side, separate from standard output.
#[test]
fn test_subprocess_stderr() {
    let argv: Vec<String> = vec![
        String::from("sh"),
        String::from("-c"),
        String::from("echo oops 1>&2"),
    ];
    let mut process: ShellProcess = match ShellProcess::exec(argv) {
        Ok(p) => p,
        Err(error) => panic!("Could not start process 'sh': {:?}", error),
    };
    let mut seen = String::new();
    loop {
        match process.read() {
            Ok((out, err)) => {
                assert!(out.is_none());
                if let Some(chunk) = err {
                    seen.push_str(&chunk);
                }
            }
            Err(error) => panic!("Could not read process streams: {:?}", error),
        }
        if !process.is_running() {
            break;
        }
    }
    assert_eq!(seen, "oops\n");
}

// An empty argv cannot start anything, and neither can a missing command.
#[test]
fn test_exec_failures() {
    let argv: Vec<String> = Vec::new();
    assert!(matches!(
        ShellProcess::exec(argv),
        Err(ShellError::CouldNotStartProcess)
    ));
    let argv: Vec<String> = vec![String::from("no-such-command-exists-here")];
    assert!(matches!(
        ShellProcess::exec(argv),
        Err(ShellError::CouldNotStartProcess)
    ));
}

// Once a run has ended and a status is recorded, liveness never reports
// true again and the status never changes.
#[test]
fn test_exit_status_stays_recorded() {
    let argv: Vec<String> = vec![String::from("echo"), String::from("done")];
    let mut process: ShellProcess = match ShellProcess::exec(argv) {
        Ok(p) => p,
        Err(error) => panic!("Could not start process 'echo done': {:?}", error),
    };
    while process.is_running() {}
    let recorded = process.exit_status;
    assert!(recorded.is_some());
    assert!(!process.is_running());
    assert!(!process.is_running());
    assert_eq!(process.exit_status, recorded);
    //Raising on a finished child may fail, but never touches the record
    let _ = process.raise(signal::Signal::SIGINT);
    assert_eq!(process.exit_status, recorded);
    assert!(!process.is_running());
}
