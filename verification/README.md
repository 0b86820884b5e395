# opencode_limits

A terminal monitor of the usage limits of an OpenCode account: it fetches the
usage of the session and of the week, shows what is left and when the limits
start anew, and fetches again by itself.

`src/` is the library, verified with Verus:

- `auth`: where the access token comes from
- `upstream`: the usage request, and what its answers come to
- `state`: the state of the monitor, and what changes it
- `schedule`: when the usage is fetched again
- `input`: what the user's keys mean
- `screen`, `layout`, `meter`, `time_left`: what the screen shows, and where
- `clock`: instants, the clocks that read them, and their texts
- `text`, `types`: numbers in texts, and the usage data

Proof functions whose names begin with `law_` state what holds of the library as
a whole. Functions marked `external_body` and items marked `assume_specification`
are believed: their comments say what is taken from the code they call.

`app/` is the program around it: the terminal, the network, and the files.
