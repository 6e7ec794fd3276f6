# OmniBridge core

OmniBridge joins the screens of several computers into one desktop: the
cursor crosses screen edges between devices, input is forwarded, and windows
can be dragged from one device to another while their frames are streamed.

`src/` is the verified library:

| module | what it holds |
|--------|---------------|
| `wire` | little-endian byte helpers |
| `protocol` | the message envelope and the window-frame header, with round-trip lemmas |
| `transport` | length-prefixed framing of messages on sockets |
| `codec` | encoded/decoded frames, encoder and decoder counters |
| `frame_packet` | cutting frames into datagram-sized packets and joining them |
| `screen`, `device`, `window`, `event` | the shared data types |
| `layout`, `topology` | the screen topology, bounds, adjacency and auto-layout |
| `edge` | edge detection and cursor translation between screens |
| `drag` | the window-drag state machine |
| `capture`, `input`, `discovery`, `session`, `config`, `cli`, `gui` | the state and decisions around capture, injection, discovery, the server/client sessions, settings, commands and windows |

`app/` is the program around it: sockets, threads and async tasks, Win32
calls, FFmpeg, the GUI, JSON, files and the command line.

`tests/` exercise the library on concrete values.
