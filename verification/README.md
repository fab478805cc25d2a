# openai-realtime-demo

A bridge between a browser, reached over WebRTC, and OpenAI's Realtime API.

`src/` is the verified library: it decides what to do about every event on the two web
sockets and the two audio tracks, writes the events for the service, and cuts the
service's speech into frames. `app/` runs the sockets, the tracks and libopus around it.

    export CRT="www.crt"
    export KEY="www.key"
    export PORT="8080"
    export OPENAI_API_KEY="your_open_api_key"
    export OPENAI_INSTRUCTIONS="You are a helpful assistant."
